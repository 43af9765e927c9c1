# gtfu

A break timer: every `freq` (`hh:mm`) it covers the screen with a window for
`len`, and it restarts its countdown when the user has been idle for `reset`.

- `src/` is the verified library (Verus): command-line parsing
  (`cli_parser`), the countdown state machine (`break_timer`), idle detection
  decisions (`idle_detection`), the event handling and drawing of the break
  window (`break_window`, `window`) and text utilities (`text`).
- `app/` is the program around it: argument parsing with clap, the
  one-second loop, standard input, the winit windows, the Wayland/X11 idle
  queries and the break process.
- `tests/` runs the library on concrete values.
