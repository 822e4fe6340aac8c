# valdi_rust

Verified validation logic for the Rust UI IR fixture corpus, written in Verus.

- `src/codec`: the fixture, contract and manifest documents, their shape
  checks, the checks of fixtures and manifests against the contract, the
  postcard binary envelopes and the inspection summary.
- `src/backend`: backend targets, capabilities and operation families, the
  capability and coverage checks, and a mock backend.
- `src/dsl`: element builders that accept only the attributes and events an
  element kind supports, and the contract documents and canonical snapshot
  the DSL produces.
- `src/dynamic_ui`: loading dynamic fixtures from JSON, binary, generated or
  in-memory sources, with producer capabilities, source trust and the
  runtime bridge checks.
- `src/counter`: the example counter app's byte helper.
- `app/`: the `ir-inspect` command line, the example counter app's floating
  point functions, and the serde copies of the document
  types that turn JSON text into library values and back.

The tests under `tests/` exercise the compiled library.
