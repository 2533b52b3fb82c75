//! A bridge between a MusicBee plugin, which talks JSON over a socket, and MPRIS clients on
//! D-Bus.
//!
//! - [`socket`] decides what is to be done about the lines and messages on the socket;
//! - [`command`] and [`metadata`] read the events of the plugin, [`message`] writes the answers;
//! - [`player`] follows the commands and answers the clients;
//! - [`notification`] decides on desktop notifications;
//! - [`json`], [`mpris`] and [`text`] hold what these are made of.
pub mod command;
pub mod json;
pub mod message;
pub mod metadata;
pub mod mpris;
pub mod notification;
pub mod player;
pub mod socket;
pub mod text;
