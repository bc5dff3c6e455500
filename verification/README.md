# door

The verified core of the door login surfaces: the greeter that signs a user in,
the lock screen that unlocks a session, and the settings editor that writes their
theme.

`src/` is the library, verified with Verus:

- `theme`, `greeter_theme`, `color`, `modes`, `window` — the config-driven theme:
  colors, scene selectors, the day/night window, and merging a config over the
  built-in night and day palettes.
- `config` — writing a theme back out (what the editor saves): the config file it
  stands for and the lines of its text. The proofs show that the written file,
  merged back over the built-in theme, gives the theme, and that the lines render
  exactly that file. Turning the lines into TOML text and parsing text back are
  done in `app/` with the `toml` crate and are not verified.
- `greeter`, `locker` — the login and unlock flows as state machines; `client` —
  what the daemon's replies mean at each point of a conversation.
- `host` — decisions on local readings: asset vetting, keyboard layout, battery,
  Caps Lock, clock text.
- `settings`, `editor`, `presets` — the settings editor: preset names, the palette
  fields, building a variant from the editor's fields, its save/export/import
  decisions, and the preset catalog.
- `text` — character-level helpers.

`app/` is the I/O around it: reading the config from disk (TOML), rendering config
lines as text, reading the clock and `/sys`, probing image headers, and handing the
state machines' commands to their workers.
