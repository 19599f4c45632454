# sgx_sdk_tools

A verified core for building Intel SGX enclaves with Rust.

- `src/` is the library, proved with Verus: the SGX mode and CVE-2020-0551
  mitigation settings and their names, the builder that turns environment
  values into compiler flags, definitions and linker arguments (on top of the
  `cc` crate's `Build`), the `sgx_edger8r` command line, the `cargo sgx`
  computations (manifest lookup, artifact paths, linking plan, project
  templates), and the untrusted runtime's per-TCS event state machine.
- `app/` is the `cargo sgx` program and the parts that touch the process:
  environment variables, files, child processes, threads blocking on events,
  and the C entry points the enclave calls.
- `tests/` runs the library on concrete values.
