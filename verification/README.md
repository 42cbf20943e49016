# fh6-tel

Decoding and session recording for Forza Horizon "Data Out" telemetry
(the "Car Dash" packet format), verified with Verus.

- `src/bytes.rs` — little-endian fields of a byte buffer (read through `byteorder`).
- `src/parser.rs` — the Dash packet decoder: exact field layout, length rules.
- `src/float_order.rs` — `<` and `==` of `f32` values held as their bit patterns.
- `src/session.rs` — the session state machine: open/close on event changes,
  completed and in-progress laps, best lap, rewind detection.
- `src/recorder.rs` — per-packet decisions of the live loop: the in-event
  grace period, the store command for a transition, what to record.
- `src/store.rs` — the best-lap rule the session store applies on close.
- `app/` — the program around it: UDP socket, SQLite store, JSON event output, and
  commands to list, replay and delete recorded sessions.

Times and other float fields are carried as `f32` bit patterns
(`f32::to_bits` / `f32::from_bits` at the edges).
