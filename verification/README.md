# mprisbee-bridge

A bridge between the MusicBee plugin mb_MPRISBee, which talks JSON over a Unix socket, and MPRIS
on D-Bus. Start the bridge first, then MusicBee in Wine.

Options:

- `-n` or `--notifications`: send notifications on track change

`src/` is the library, verified with Verus: it reads the events of the plugin, writes the
messages for it, follows the state of the player and answers the requests of MPRIS clients.
`app/` does the input and output around it. `tests/` runs the library against the crates that it
calls: `serde_json`, `mpris-server` and `users`.
