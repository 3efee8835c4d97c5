# keycap

An on-screen keystroke overlay. The verified library (`src/`) holds the
logic; `app/` is the program around it (window, rendering, tray, keyboard
hook, config file I/O).

- `src/config.rs` — the configuration types, their defaults, `validate`
  (clamping to sensible ranges) and where the config and log files live.
- `src/key.rs` — the keyboard model, key events and key labels.
- `src/mode.rs` — the timeline mode (recent presses fading out, lingering
  from the key's release) and the
  combo mode (held keys, modifiers first), and `create_mode`.
- `src/overlay.rs` — the per-frame show/hide decision, colour parsing and
  the transfer of a rendered frame into the presentation buffer.
- `src/tray.rs` — tray actions, menu texts, menu-entry mapping, the tray
  icon's pixels and the tool-window style bits.

Times are milliseconds on a clock chosen by the caller; opacities are exact
(`Full`, `Fading { elapsed_ms, duration_ms }`, `Clear`) and turned into
floats only when drawing.
