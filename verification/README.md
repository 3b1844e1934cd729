# hyper_native

The Native ABI of the HypeR kernel, and the safe bindings that Native
processes use on top of it, with their behaviour proved by Verus.

- `src/schema.rs`, `src/validate.rs`, `src/calls.rs`: the ABI schema model and
  every structural rule a schema must satisfy; `validate` accepts exactly the
  schemas the rules describe.
- `src/render_rust.rs`, `src/render_c.rs`, `src/reference.rs`,
  `src/describe.rs`, `src/render.rs`, `src/text.rs`: the three generated
  artifacts (Rust definitions, C header, Markdown reference), each rendered to
  exactly the text its specification defines.
- `src/generator.rs`: validated generation and drift checking of the
  checked-in artifacts.
- `src/abi.rs`: the generated constants and records used by the bindings.
- `src/os/`: the bindings. Each operation is split at the syscall: the
  library validates arguments and lays out requests, and settles the
  kernel's answer (status, value registers, written records) into typed
  owners, observations or errors. Multi-call operations (exact reads, chunked
  VMO transfers, directory scans, private-mapping close, byte relays, blocking
  channel and console operations) are explicit state machines.
- `tests/`: the project tests, with kernel answers supplied directly, and
  further tests of every decision.
- `app/`: the `hyper-abi` command (`check` / `write`) over the production
  schema.

## Test expectations that follow the schema

A few assertions on generated values follow the production schema rather
than older tables:

- The rights mask is `0x7fffffff`: the schema declares
  `create_virtual_machine` (bit 29) and `bind_wait` (bit 30), both required by
  declared syscalls. Expectations of `0x1fffffff` or `0x3ff_ffff` contradict
  each other and the schema, and are not asserted.
- The failure mask of `byte_channel_read` on `buffer_too_small` is `0b1`: its
  only failure result is `actual_bytes`. A `0b11` expectation, written for a
  channel read that also reported a handle count, is not asserted; the
  capability receive keeps `0b11`.
- The schema declares no object-kind count of 18 and no set-attributes or
  lock-file right, so file and directory rights offer only the declared
  rights, and no test narrows authority by those two rights.
- Object, syscall and signal names follow the byte-channel and
  capability-channel split (`BYTE_CHANNEL`, `CAPABILITY_DISPOSITION`).
