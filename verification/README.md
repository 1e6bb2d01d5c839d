# speekr

A system-tray program that reads the selected text aloud (Ctrl+Shift+T) or
shows its Vietnamese translation in a popup (Ctrl+Shift+G).

- `src/` is the verified library (Verus): language detection and voices,
  HTML escaping of the popup page, the decisions of the event loop
  (`controller`), the tray menu and icon, the hotkey ids, and the pure parts
  of the clipboard, translation and speech engines. Laws are public
  `law_*` proof functions next to the functions they speak of.
- `app/` is the program around it: the event loop, windows, the tray icon,
  the clipboard, processes and audio playback.
- `tests/` runs the library on concrete values.
