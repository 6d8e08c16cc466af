# xfw

The core of the xfw Wayland widget runtime as a library verified with Verus,
and the `xfw` program around it.

- `src/` — the verified library: buffer geometry and pool bookkeeping,
  clipboard state, the event loop's registrations, event mapping and
  dispatch, timers, file-event classification, pointer button codes and
  surface tracking, layer-surface ids, layer-shell and xdg window settings,
  setup requests and managers, style keys, command-line parsing, and the
  renderer shell. Calls into `wayland-client`, `wayland-protocols(-wlr)` and
  `mio` go through small trusted wrappers whose contracts say what those
  crates do; the wrappers that send requests to the compositor or to the
  system poller also record each request in ghost state, so that contracts
  can say what was asked.
- `app/` — the program: argument and environment reading, the compositor
  connection and its event dispatch, shared-memory buffers, inotify, the
  clipboard's lock, floating-point pointer positions and hit tests, and the
  loop that drives the event loop.
- `tests/` — tests of the library.
