# APC40mk2 Bridge

A tray application that forwards MIDI from a virtual port (loopMIDI) to an Akai
APC40 mk2, so that LED feedback from Resolume reaches the device.

## Layout

- `src/` — the verified library (Verus):
  - `sysex.rs` — the device's mode-switch SysEx messages and menu labels.
  - `bridge.rs` — the bridge's states (stopped, running, reconnecting), starting and
    stopping, the reconnect watchdog's decisions, and port lookup by name.
  - `tray.rs` — the tray menu's contents, the command behind each menu item, the
    tooltip and the stream-test report.
  - `stream_test.rs` — the midiStreamOut experiment as a state machine: from the
    outcome of each Windows multimedia call it picks the next call and writes the log.
  - `text.rs` — decimal numerals, string comparison and prefix removal.
- `app/` — the Tauri application around the library: windows, tray, commands,
  midir connections, the watchdog thread and the WinMM calls.
- `tests/` — tests of the library on concrete values.
