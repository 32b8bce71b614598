# celestial-service

The Celestial service daemon keeps an IPC server running until it is told to
shut down, either as an ordinary process (SIGINT, SIGTERM, Ctrl+C) or as a
Windows service (the Stop control).

- `src/` is the verified library: parsing and writing the PID file, taking the
  PID lock, the course of a run and the replies to the service control
  manager. The last three are state machines: the library says which action to
  perform next and decides from its outcome.
- `app/` performs those actions: files, signals, the service control manager,
  logging, and an IPC server supplied through the `IpcServer` trait.
- `tests/` runs the library on concrete inputs.
