# wincallnotifier

Watches an Android phone over USB/ADB and shows Windows toast notifications
for its calls. This crate is written in Verus: the library under `src/` is
verified, and `app/` is the Windows program around it.

## Layout

- `src/text.rs` — character-level text handling (trimming, line and word
  splitting, searching, decimal rendering) with its specifications.
- `src/call/` — call states and events, the parser of `dumpsys
  telephony.registry` / `dumpsys telecom` output (patterns matched with the
  `regex` crate), and the call state machine with its laws (one event per
  change of state, `Unknown` readings ignored, ended calls always timed).
- `src/adb/` — reading `adb devices -l` and `getprop` output, where `adb` is
  looked for, how a shell command's outcome reads, which device is followed,
  and the call-state query as a sequence of shell commands.
- `src/app.rs` — status snapshot, user commands and the decisions of each
  poll of the monitoring loop.
- `src/config/`, `src/notifications/`, `src/ui/` — settings and their
  defaults, the toast each event gets, the tray and status-window texts and
  the tray icon's pixels.
- `app/` — `main`, the tokio service loop, running `adb`, loading and saving
  the JSON settings, showing toasts, the tray icon and the Win32 status window.
