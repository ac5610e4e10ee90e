# libruntime

The decision logic of a small OCI container runtime, verified with Verus.

- `src/` is the verified library: the error type and its text, the
  container state and its builder, the store of container records, JSON
  entries, the model of the runtime configuration that forking reads, clone
  flags and namespace selection, path joining and expansion, the pivot-root
  sequence as a step function, and the IPC channel's messages.
- `app/` is the `balaeno` command line and everything that talks to the
  system: sockets, `clone`, `pivot_root`, files, Docker image export.
- `tests/` runs the library on concrete values.
