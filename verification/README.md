# zenith

The logic of the Zenith control center for a Hyprland desktop, written in
Verus: every function in `src/` carries a contract that Verus proves.

- `src/` — the verified library: configuration file formats (`config`,
  `config_read`, `keybinds`, `jsonc`), the shell configuration and the discovery of
  modules and cards (`shell_config`), backups (`backup`, `calendar`), the
  tool hub (`packages`), package installation and process choices
  (`process`), Hyprland keywords (`hyprland`), palettes (`palette`),
  fastfetch output and settings (`ansi`, `escape`, `fastfetch`), the files
  put in place on first start (`bootstrap`, `qml_files`), the daemon's
  protocol decisions (`ipc`), what the settings pages decide when a row,
  button or menu is used (`designer`, `editing`, `choices`) and the text
  helpers they share (`text`).
- `tests/` — tests of the library on concrete values.
- `app/` — the daemon `zenithd` and the file, process, socket and image
  work around the library.
