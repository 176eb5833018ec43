# resq_plugin_sdk

SDK for out-of-process plugins that speak newline-delimited JSON-RPC 2.0 over
stdio, written in Verus.

- `src/` is the verified library: envelope types and error constructors
  (`rpc`), line framing (`transport`), the serving session as a state machine
  that answers every request exactly once (`service`), the `initialize`
  handshake (`handshake`), manifest validation (`manifest`), and the text
  helpers they rest on (`text`: decimal rendering, Unicode whitespace trimming).
- `app/` holds the I/O around it: serde encodings of the library's types,
  reading and writing lines over a reader/writer, the serving loop over stdio,
  and loading `resq-plugin.toml` from disk.
- `tests/` exercises the library.
