# lattice

Stage 0 boundary checks of the Lattice DB edge database, verified with Verus.

- `src/baseline.rs` – protocol / file-format versions and capacity baseline.
- `src/stage_zero.rs` – validators for the frozen specification and the
  fault-injection matrix, the FNV-1a document digest, and the laws that
  accepted documents satisfy.
- `src/frozen_sections.rs` – the identifier, sequence, filesystem and
  frame-layout sections of the specification and their validators.
- `src/documents.rs` – the stage 0 TOML documents.
- `src/storage.rs`, `src/sync.rs`, `src/transport.rs` – the storage,
  synchronization state-machine and transport boundaries.
- `src/cli.rs` – command selection, exit codes and the combined verdict.
- `src/text.rs` – blank detection, literal comparison, number rendering.
- `app/` – the executable: TOML decoding with serde, printing, exit status.
- `tests/` – behaviour tests of the library.
