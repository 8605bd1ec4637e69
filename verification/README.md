# lark_codex_bridge

The decision core of a bridge between a Feishu/Lark channel and a Codex
app-server, written in Rust and proved with Verus.

- `src/codex/` follows the app-server: JSON-RPC envelopes, the owner of a
  connection, routing tables and mailboxes, wire contracts, the local process,
  external endpoints with their admission, recovery and writes.
- `src/channel/` follows the channel: provider-neutral values, native
  classification, the Node sidecar's frames, sessions and supervision.
- `src/app.rs` and `src/cli.rs` hold the order of assembly, the inbound driver
  and the rules of the command line.
- `src/json.rs`, `src/outside.rs` and `src/version.rs` are the only places that
  call outside crates; each says what it takes to be true of them.
- `app/` is the program around it: arguments, processes, sockets, clocks.
- `tests/` runs the library on concrete values.

A state machine takes what happened and gives back what is to be done. Its
contract equates the two with a specification function; the laws that hold over
several steps are public proof functions beside it.
