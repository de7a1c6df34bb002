# catime

A desktop countdown / stopwatch timer, verified with Verus.

- `src/` — the verified library: the timing state machine (`timer.rs`), the
  controller that routes commands and keeps the view snapshot and the
  configuration in step (`controller.rs`), the configuration model
  (`config.rs`), the duration texts (`duration_text.rs`, `duration_parse.rs`),
  tray-menu and button mappings, the hot-reload debounce (`watch.rs`), and the
  start-up window geometry. The
  `*_laws.rs` files hold the proved properties that span several calls.
- `tests/` — tests of the library.
- `app/` — a terminal front end: reads and writes `config.toml`, watches it for
  changes, drives the clock with a ticker thread and takes commands on
  standard input.
