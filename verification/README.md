# mousekey

Merges a keyboard and a mouse into one virtual input device (Linux, uinput),
and turns mouse movement into arrow keys: moving the mouse far enough in one
direction sends one arrow key press; moving further starts repeating that key,
and moving back stops it. Holding Caps Lock passes the mouse through
unchanged; F5+F7+F8 makes the keyboard
worker panic (force quit), so no more keyboard input is passed on.

Layout:

- `src/` — the verified library (Verus):
  - `codes.rs`: input event codes and the library's event type;
  - `config.rs`: the configuration and where its file lives (next to the executable);
  - `error.rs`: the error type and its messages;
  - `arrows.rs`: the mouse-to-arrow state machine, with its specification;
  - `arrow_laws.rs`: what that state machine promises, proved;
  - `keyboard.rs`: force-quit combination, Caps-Lock passthrough, key repeat;
  - `device.rs`: choosing and confirming input devices;
  - `capabilities.rs`: the keys and axes of the merged virtual device.
- `app/` — the program: device I/O, threads, the configuration file.
- `tests/` — tests of the library.
