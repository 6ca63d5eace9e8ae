# syncrgb

An ambient-light controller for an LED strip behind a monitor: it mirrors
the screen edges, reacts to music, or shows a static colour or effect.

- `src/` is the library, verified with Verus: the settings and their
  defaults, how LEDs are placed on the screen edges, colour clean-up and
  packet layout, the decisions of the capture and device loops, the
  interface text, and the autostart state.
- `tests/` exercise the library on concrete values.
- `app/` is the Windows program around it: screen capture, audio metering,
  the serial device, the tray icon, the settings window, the registry and
  the settings file, and the colour effects computed in floating point.
