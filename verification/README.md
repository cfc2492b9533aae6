# alacritty core, verified

The logic of a terminal emulator, with contracts that Verus proves:

- `grid`: the cell grid with its scrollback buffer, scrolling regions,
  resizing and iteration; `grid::storage` and `grid::buffer` hold rows in a
  bounded ring.
- `index`: line, column and point newtypes and their ranges.
- `ansi`: what each control function reported by the byte-level parser
  stands for (`execute`, `esc_dispatch`, `csi_dispatch`, `osc_dispatch`),
  and `perform`, which hands an action to a terminal's `Handler`; a
  handler keeps the record of the actions it was handed (`ActionLog`
  keeps them in a vector).
- `input`: key and mouse bindings, mouse and focus reports, wheel scrolling,
  typed characters and pasted text as bytes for the pty.
- `config`: configuration values and defaults, the default bindings, how
  configured bindings replace them, and the readers of modifier lists, mode
  lists, action names, mouse buttons, decorations and hex colors.
- `message_bar`: messages and how their text is broken into lines.
- `io`: UTF-8 decoding step by step, and encoding.
- `activity_levels`: a time series of metrics, one slot per time unit.
- `activity_level`: activity per second, with the policies that fill the
  seconds without activity.
- `egl`: the attribute lists that ask EGL for a frame buffer
  configuration and for a context, and the pixel format of a chosen
  configuration.
- `event_loop`, `cli`, `build_info`, `glutin`, `event`: the write queue of
  the pty, command line options, build descriptions, GL context
  descriptions and builders, the choice of GLX or EGL on X11, creation
  errors and small shared types.

`app/` is a command-line front end: it reads the options with clap and runs
the escape sequence parser (vte) over standard input; it also holds the
floating point side of the activity chart.
