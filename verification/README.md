# churro

A library for writing bots for Chatto servers, verified with Verus.

- `src/` is the verified library. It decides what every request and frame a
  bot sends holds, and how it reacts: the login request and the session it yields (`bot.rs`), the
  requests for rooms, users and messages, and where replies and thread
  messages go (`bot.rs`, `ctx.rs`), the handshake on the realtime socket as a
  state machine (`listen.rs`), and how each realtime event is routed to a
  handler with the resources it needs (`events.rs`). The protocol messages are
  held as plain values (`model.rs`, `realtime.rs`).
- `app/` performs the I/O with the library's decisions: the HTTP login, the
  Connect RPC clients (their protocol and TLS roots), the websocket, the protobuf encoding of frames and the
  async `EventHandler` trait. It needs the Rust code that `connectrpc-build`
  generates from Chatto's `.proto` files.
- `tests/` runs the library on concrete values.
