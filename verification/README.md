# terminal_tomato

A full-screen terminal work/break timer. The library under `src/` holds its
logic, verified with Verus; `app/` is the terminal program around it.

- `src/config.rs`: settings, their defaults, the validity check and the
  choice made from the outcome of loading `config.toml`.
- `src/session.rs`: session kinds, timer status, how a session ends.
- `src/timer.rs`: the timer state machine. Each step takes a clock reading
  (monotonic nanoseconds and the wall clock) and returns, besides the new
  state, the effects the caller performs in order: append a log record,
  play the sound. It also gives what the screen shows.
- `src/log.rs`, `src/clock.rs`: log records and their timestamps (formatted
  by `chrono`).
- `src/text.rs`, `src/glyph.rs`: the `MM:SS` clock face and its large block
  rendering.
- `src/laws.rs`: properties that span several operations.
- `app/main.rs`: reads the settings file, draws with `ratatui`, reads keys
  with `crossterm`, writes JSONL logs with `serde_json`, plays MP3 with `rodio`.
