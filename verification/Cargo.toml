[package]
name = "mprisbee-bridge"
version = "0.1.0"
edition = "2021"
publish = false

[dependencies]
async-channel = "=2.5.0"
async-std = { version = "=1.13.2", features = ["attributes"] }
futures = "=0.3.34"
mpris-server = "=0.9.0"
serde_json = "=1.0.154"
sysinfo = "=0.37.2"
users = "=0.11.0"
