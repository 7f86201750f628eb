# tether

Windows that are web views.

- `src/` is the verified core (Verus). It holds the window options and
  their defaults, an options builder, the state of a window (whether a
  native window backs it), the state of the application (whether it was
  started), the check that a string fits in a C string, and the reading of
  messages from the web page. It never calls the native web view: each
  operation returns the `NativeCall` to make.
- `app/` drives the native web view library through its C interface. It
  keeps the shared state, performs each `NativeCall`, and calls the core
  for every decision.
- `tests/` runs the core on concrete values.
