# termlaunch

A keyboard-driven launcher that runs in a terminal, with a daemon that opens it on a global
hotkey.

- `src/` is the library, verified with Verus:
  - `text.rs`: character and string helpers (ASCII lower case, substring search, decimal text,
    path joining) stated over `Seq<char>`.
  - `keys.rs`: key events and shortcut strings such as `ctrl+a`.
  - `config.rs`: the settings, their defaults, and the settings and application directories.
  - `app.rs`: the launcher's state machine (`AppView` model, `key_step`, `event_step`), the
    suggestion rules, the calculator fallback and the list of installed applications.
  - `view.rs`: the window's content and the numbers that centre it.
  - `hotkey.rs`: the configurable hotkey listener and the commands that open the launcher in a
    terminal; `fixed_hotkey.rs`: the fixed Command+Space listener.
- `app/` holds the program: terminal set-up, drawing with ratatui, reading keys with crossterm
  and rdev, reading the settings file with serde and toml, logging, and running commands.
- `tests/` runs the library on concrete values.
