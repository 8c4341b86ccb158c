# acter-core

The domain of an accessible terminal: what a far end is, what it said, what of that is
spoken, and how a window connects to one. The library is written in Verus; every function
in `src/` carries a contract the verifier proves.

- `src/entities` — the values: protocol messages, saved connections, shell installs,
  signature verdicts, style runs, the text a session has not yet spoken.
- `src/policies` — the decisions with no state of their own: auto-read pacing, the
  command-block boundary tracker, the far-end command line rule, key spellings and
  bindings, the connection catalogue, the system menu.
- `src/ports` — what the domain asks of the world (terminal engine, shells, stores,
  questions) and what the world asks of it.
- `src/controllers` — the session actor: inputs and wakes in, events out.
- `src/services` — the connect service, the connect conversation, and the session pump,
  which turns each read, request and timer into the writes, actor inputs and timers to
  arm.

`app/` is the runtime around it: the tokio tasks a session runs as, the clock and
transport ports, a shared connect service for the window, and the protocol types with
the serde and specta derives the wire needs.
