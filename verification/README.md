# thumbvol

Thumb-wheel-to-volume daemon for Logitech MX Master mice (Windows & Linux).

- `src/` — the verified library (Verus):
  - `wheel.rs`: the accumulator that turns wheel notches into volume steps,
    with its abstract model (`WheelState`) and the laws it obeys;
  - `config.rs`: the configuration model, its defaults and validation;
  - `platform/linux.rs`, `platform/windows.rs`: the backends' decisions that
    need no system call (event filtering, message dispatch, key strokes,
    autostart entries, the tray menu, the live settings);
  - `text.rs`: decimal numerals and UTF-16 encoding.
- `app/` — the program around it: TOML (de)serialization, file and device
  I/O, the Win32 hook/tray and the registry.
- `tests/` — tests of the library.
