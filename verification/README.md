# airslate_pc_server

The desktop side of AirSlate: a tablet connects over TCP, then streams pen and
touch-gesture frames over UDP, and the desktop replays them as pen input and
keyboard/mouse shortcuts.

- `src/` is the verified library, written in Verus: the binary wire protocol
  (`protocol`), the handshake and the realtime datagram intake (`handshake`,
  `ingest`), the single-session bookkeeping (`session`), the stylus pipeline's
  routing, queue compaction, anchor correction and workers (`input_pipeline`),
  the shortcut bindings, presets and the gesture engine (`shortcut`), the
  event framing of the Linux, Windows and macOS input back ends
  (`native_input`), and what the desktop shell shows (`desktop`). Public proof
  functions named `law_*` state the properties that hold across calls.
- `app/` is the program around it: config file, network sockets, threads,
  clocks, the floating-point pressure curve and gesture geometry, and the
  uinput devices.
- `tests/` exercises the library on concrete values.
