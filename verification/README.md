# monoterminal_master

The master daemon of monoterminal: it hosts terminal sessions and serves them
to remote clients over WebSocket and WebRTC.

- `src/` is the verified core, written in Verus. It holds the terminal model
  (VT parser, grid, scrollback ring), the glyph atlas allocator and cache,
  session bookkeeping, request planning and responses, the WebRTC handshake
  and transport ledger, pairing and TURN credential handling, backpressure,
  health reports and backend selection. Each public function carries a
  contract, and the laws that relate several functions are public proof
  functions (`lemma_*`).
- `app/` is ordinary Rust around it: the async servers and loops, PTY and
  network I/O, the GPU window, and serde copies of the library types.
- `tests/` runs the library with the real outside crates linked.
