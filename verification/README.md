# Telemetry and Logging Utility for Windows — verified core

Turns off Windows diagnostic data collection (diagnostic-data policy, the
`DiagTrack` service, CEIP / feedback scheduled tasks, advertising ID,
tailored experiences, CEIP and app-inventory policies), clears log and
temporary-file locations, schedules those clears, and keeps a history of
what they freed. It does not touch Windows Update, Microsoft Defender or
BITS.

## Layout

- `src/` — the library, written in Verus. Every function carries a
  `requires` / `ensures` contract that Verus proves; laws that relate
  several functions are public `proof fn`s (`lemma_*`).
  - `telemetry` — the settings: how each is read from registry values,
    service and task output, which writes and commands switch it, and how
    their outcomes are reported; elevation.
  - `lockdown` — the one-shot lockdown and its step-by-step report.
  - `log_cleanup`, `temp_cleanup`, `folder_clear` — cleanup targets, their
    inspection and clearing, and the reports.
  - `cleanup_schedule`, `schedule_task`, `calendar` — the cleanup schedule,
    its next runs, its scheduled-task definition, and the run report.
  - `cleanup_history` — the history file of bytes freed per day.
  - `disclaimer` — the liability waiver and its acceptance record.
  - `maintenance`, `identity`, `system_links`, `launch` — run at startup,
    the post-update task, legacy names, and the Windows log tools.
  - `dashboard_state`, `dashboard`, `controls`, `tray`, `single_instance`,
    `app_icon` — the dashboard window as a state machine over its messages
    and the outcomes of its actions, and what it shows. The state machine
    follows the iced dashboard, where Turn all OFF / ON and Quit ask for
    confirmation first; the egui dashboard's immediate Turn all buttons are
    the `TurnAllNow` message, and its immediate Quit is the caller's exit.
  - `report`, `text` — command-line report lines and text helpers.
- `tests/` — tests on concrete values.
- `app/` — the command-line program and the Windows plumbing (registry,
  processes, files, the clock) around the library.

The library calls `image` (icon decoding and resizing) through two trusted
wrappers in `src/app_icon.rs`, and `String::push` through one in
`src/text.rs`; their contracts are stated in their doc comments.
