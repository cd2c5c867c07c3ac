# smux

Stream multiplexing over one connection, after the smux protocol: frames
with an 8-byte little-endian header (version, command, payload length,
stream id), client streams on odd ids and server streams on even ids.

- `src/` is the library, verified with Verus: commands, configuration and
  its rules, errors, frames and their rules, the codec (wire format, with
  the encode/decode round trip proved), stream-id allocation, and the
  decisions of a session (`session.rs`) and of a stream (`stream.rs`),
  including that data received for a stream id is sent into the channel
  whose receiver the stream for that id reads from.
  `buf.rs`, `channel.rs` and `table.rs` hold the trusted contracts of the
  `bytes`, `flume` and `dashmap` calls the library makes.
- `app/` runs those decisions on tokio: the `Session` tasks, `Stream`'s
  `AsyncRead`/`AsyncWrite`, the `tokio_util` codec traits, and an error
  type with `Display`.
- `tests/` exercises the library.
