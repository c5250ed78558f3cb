# vaise

The verified core of Vaise, a tray launcher that shows keyboard-shortcut cheat sheets.

- `src/` is the library, checked by Verus:
  - `sheet`: cheat sheets, their entries and the payload handed to the interface, with their models;
  - `defaults`: the built-in sheets, stated exactly;
  - `files`: which directory entries are sheet files, the file a sheet is written to, and which
    files seed a directory that holds none (with the laws that seeding is done once, writes
    distinct files and is read back, and that names of other files change nothing read);
  - `sort`: listing sheets by name, a stable sort: sheets with equal names keep the order the
    directory yields them in, and when no two sheets share a name the list does not depend on
    that order;
  - `launcher`: what the launcher does on each shortcut, tray, menu and window event;
  - `icon`: decoding the tray icon with the `image` crate;
  - `text`: the order of texts and character-level helpers.
- `app/` is the Tauri program around it: windows, tray, global shortcut, files and JSON.
  It embeds `icons/tray.png`, which is not part of this tree.
- `tests/` runs the library on concrete values.
