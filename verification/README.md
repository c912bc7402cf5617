# clawd-core

Clawd is a desktop pet that shows what a coding agent is doing: it listens to
the agent's HTTP hooks, runs a small state machine with three timers, and
tells a transparent window which pose and label to show.

This crate is the part of Clawd that decides things, written in Verus and
proved against its contracts:

- `state`, `event`, `config`, `time`: the vocabulary (ten states, the domain
  events, the timer thresholds, millisecond clocks).
- `machine`: the state machine. Ownership by session, sticky blocking states,
  the long-task, success and watchdog timers, and the laws that relate them.
- `label`: the chip text for every event, capped at thirty characters.
- `json`, `hook`: reading a hook body (serde_json parses; the schema and the
  hook-to-event table are verified code).
- `listener`: which HTTP requests are hooks, the body cap, the port rules.
- `position`: per-display position memory and the choice of display at
  start-up.
- `mock`, `source`: the event sources' boundary and the dev harness's script.

`app/` is the Tauri shell: window, tray, cursor poll, the socket, the disk,
and the floating-point window geometry. It hands the library plain values.

A long silent build does read as stalled. The timer tests require the
watchdog to fire two minutes after the last event in every busy state,
long-task pose included, and `next_wakeup` to report exactly that instant; a
rule that spared a four-minute build would break both. `tests/hook_run.rs`
records what such a build does: long task, then `Paused`, then back into the
turn when the build reports.
