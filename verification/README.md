# typio_host

The decision logic of the Typio input-method host for Wayland, written in
Verus and proved against its contracts: candidate-panel pacing, scheduling and
buffer bookkeeping, protocol deadline tracking, keyboard routing (the
Ctrl+Shift switch chord, Super+V push-to-talk, symmetric release forwarding,
auto-repeat, preedit de-duplication), engine-process request and recovery
policy, keyboard-mode change observation, engine-channel deadlines, the
control service's answers, the TIP IPC envelope, configuration parsing, the display settings file (`platform.toml`) read
and updated in place, the tray menu, the
settings application's model, font-face ranking, and the engine vetting
report.

Layout:

- `src/` — the verified library (`typio_host`). Each module states its
  behaviour in `requires`/`ensures` over spec functions; laws that span
  several calls are public proof functions.
- `tests/` — executable tests of the library.
- `app/` — the I/O around the library: the IPC socket client, the repeat
  timerfd, the `poll(2)` set, the deadline-bounded engine stream, the TIP request decoding, reading and
  writing the display settings file (and its font size), serde conversions of
  the settings model, shared-memory descriptors and the file-system side of
  the resource checks. It decides nothing the library can decide.

The library calls `serde_json` (to read a JSON list of strings), `toml_edit`
(to parse, read and edit the settings document) and
`std::path` (parents and extensions of paths) through trusted wrappers whose
contracts name their results; everything else in `src/` is verified.
