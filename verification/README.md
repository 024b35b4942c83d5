# smart_actions

The verified core of a tray application that runs "smart actions" — scripts
that record speech and turn it into text, speak text aloud, and the like —
and keeps its tray menu, tray icon, mouse cursor and sounds in step with
each action's progress.

- `src/` is the library, verified with Verus:
  - `domain/` — the data: smart actions, their configuration and its parser
    (`ActionConfig::parse_from_string`), languages, sounds, cursors, the
    startup metadata and the command lines the application runs.
  - `logic/` — the managers: the smart action's life (start, stop, end of
    its process) as a state machine that returns what to do, the menu's and
    the tray's state, sounds, the language, the script's location and the
    menu's commands.
  - `commands.rs` — what the user interface's startup request computes.
  - `text.rs` — Unicode whitespace, trimming, line and word splitting.
  - `ordered_map.rs`, `io_error.rs` — the outside types the library carries.
- `app/` is the desktop application around it (Tauri): windows, menu items,
  tray icon, processes and events, carrying out what the library decides.
- `tests/` exercise the library on concrete values.
