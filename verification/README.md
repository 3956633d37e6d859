# event_trace

Verified decision logic of a remote-desktop event tracer and of the
scenario bot that drives a remote session, written in Verus.

- `src/mouse.rs` – mouse masks (`buttons << 3 | type`): encoding, decoding
  to the logged event, and the round-trip law.
- `src/keys.rs` – the hooked keyboard keys and the names they are sent under.
- `src/tracer.rs` – the client-side state machine: pointer position, held
  keys, and the mouse and key messages sent for each hooked event.
- `src/text.rs` – decimal rendering, substring search, UTF-16 window texts.
- `src/window.rs` – window rectangles and their text.
- `src/session_log.rs` – the per-session log: paths, chunks, and what is
  saved for each traced input.
- `src/bot.rs`, `src/recorder.rs` – the scenario bot: key and mouse messages,
  the peer's description, and one turn of the session loop for every
  message from the peer, the user interface and the timers.
- `app/` – the runtime around the library: input hook, files, window
  queries, network uploads and the asynchronous session loop.
