# Desktop Usage Helper

A Windows tray application that shows, in one place, how much of each LLM
vendor subscription or balance is left, and raises a toast when a provider runs
low.

The decisions of the application are a verified library:

- `src/config.rs` — the Settings patch and the per-provider switches;
- `src/provider/` — the provider registry, what a refresh fetches and with which
  key, and for each vendor the request it sends and how its answer becomes a
  card;
- `src/notify.rs` — when a toast fires (once per dip below the threshold), the
  Do Not Disturb window and the toast text;
- `src/tray.rs` — the aggregate state, the status dot, the menu and the tooltip;
- `src/history.rs` — the seven-day usage history behind the trend charts;
- `src/sync.rs` — export to and import from a private GitHub Gist;
- `src/clock.rs` — instants and calendar arithmetic, through chrono;
- `src/json.rs`, `src/text.rs`, `src/i18n.rs`, `src/errors.rs` — supporting pieces.

`app/` is the Tauri application around it: HTTP with reqwest, the tokio tasks,
the tray and windows, persistence, and the float arithmetic of the usage
shares. `tests/` exercises the library on concrete values.
