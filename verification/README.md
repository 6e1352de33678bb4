# trader

The verified core of a ZeroMQ-based trading backend, written in Verus.

- `src/` — the library, verified except for seven small trusted wrappers
  around the standard library, flate2 and validator, whose contracts are
  stated in their doc comments: socket readiness interest
  (`poll_kind`), multipart messages and their framing (`message`, `frames`),
  one socket of the poll loop and the loop itself (`pollable`, `poll_thread`),
  the send/receive and sink/stream state machines (`send_state`,
  `sink_stream`, `evented`, `streams`), socket build plans (`config`),
  socket wrapper derivation rules (`derive`), the embedded-file registry
  (`includedir`), store records and query decisions (`store`) and the
  reading of strategy answers (`strategy`).
- `tests/` — executable tests of the library.
- `app/` — the unverified edge: the zmq poll thread and session handles,
  the futures, sinks and streams over it, socket creation, build-time embedding, the Lua strategy runner and the
  rendering of wrapper implementations.
