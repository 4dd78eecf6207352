# wasc build context

The build context of a WebAssembly ahead-of-time compiler, verified with Verus.

- `src/context.rs`: `Platform`, `Config` (the global configuration of a build)
  and `Middle` (the state carried between the compiler's stages), with the
  derivation of the build's paths from its source file and the laws that tie
  the operations together.
- `src/path.rs`: the `std::path` operations that the context delegates to,
  behind trusted wrappers whose results are named by uninterpreted spec
  functions.
- `app/lib.rs`: reading the process's working directory and converting
  `std::path` values before calling the library.
- `tests/`: tests on concrete values.
