# quies

A terminal ambient sound mixer: layers of noise (brown, pink, ...) played
together, each with its own volume and mute switch, driven from an
interactive terminal view or from a background daemon over a Unix socket.

- `src/` is the verified library (Verus): the presets, the mix as plain
  values (volumes in percent), the daemon's request protocol, the command
  line, and the texts of the status report, the terminal view, the
  daemon's replies and the usage message. The program's own messages
  about the socket and the daemon process are written in `app/`.
- `app/` is the program around it: the audio device and sample sources
  (rodio), the terminal view (ratatui, crossterm), the socket and the
  process handling.
- `tests/` runs the library on concrete values.
