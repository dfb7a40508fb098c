# veritas_sdr

The decision logic of the Veritas SPARK offline inference runtime, written
in Verus with its behaviour stated in contracts and proved.

Layout:

- `src/` — the verified library: request and deployment-spec validation
  (`k8s`), resource admission (`memory`), A/B traffic splitting
  and per-variant counters (`ab_testing`), the IPC schema, token encoding, frame checks and request routing (`ipc`),
  canary analysis decisions (`deployment`), GPU/backend bookkeeping and
  multi-GPU partitioning (`engine`), the command line's decisions (`cli`)
  and the C interface's error codes (`ffi`).
- `tests/` — tests of the library, run against the compiled crate.
- `app/` — the command-line binary: socket I/O, JSON, printing, and the
  floating-point statistics, around the library.
