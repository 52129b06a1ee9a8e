# pixelbuds

The verified core of the Pixel Buds Pro status daemon and its control
client.

- `src/` is the library, proved with Verus: the status model
  (`status.rs`), the control-verb grammar (`verb.rs`, `text.rs`), the state
  file and socket paths (`paths.rs`), the Maestro messages held as plain
  values and how each changes the status (`protocol.rs`), the control
  socket's decisions and replies (`control.rs`), the publish-only-on-change
  gate (`writer.rs`), the connection loop's decisions (`link.rs`), and the
  properties relating them (`laws.rs`).
- `app/` is the program around it: the Bluetooth and Maestro session,
  the socket and file I/O, JSON rendering, and the `pixelbudsctl` client
  (the same binary, run under that name).
- `tests/` exercises the library on concrete values.
