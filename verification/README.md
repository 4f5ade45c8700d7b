# window2clear

A Windows tray tool that changes the opacity of the foreground window with
two hotkeys (Alt+Left: more transparent, Alt+Right: less transparent), keeps
the alpha applied with a 10 ms guard timer, and stores its settings in
`config.ini` next to the executable.

- `src/` is the verified library (Verus):
  - `text`: decimal rendering and null-terminated UTF-16 encoding;
  - `keys`: modifier and virtual-key names (`CTRL+ALT+F5`);
  - `tracker`: the list of translucent windows and their alpha;
  - `alpha`: alpha arithmetic, style-bit changes and the guard's decision;
  - `config`: settings, profile keys, loading, saving, the profile path;
  - `state`: the program state and the main window's decisions;
  - `dialog`: the settings dialog (hotkey capture, master switch, save).
- `app/main.rs` is the Win32 side (windows, tray, hotkeys, profile I/O and
  the message loop); it calls the library for every decision.
- `tests/` runs the library on concrete values.
