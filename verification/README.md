# identity_log

The rules of a Dirextalk identity service as a verified library: the signed
append-only log of an identity, and the decisions that its service takes on
enrollments, sessions, key packages, client bindings and history recovery.

- `src/wire/` holds the values that travel: deterministic CBOR, digests, keys,
  IDs, numbers and texts.
- `src/log/` holds the events of an identity log, their checks, the state that
  they lead to, and pages of events.
- `src/persistence/` holds the commands of the service, the rows that it keeps,
  and what it decides from both. A decision takes what was read and says what
  is to be written or why the request is refused.
- `src/outside.rs` holds every call into code that is not verified, with what is
  believed of it.
- The laws that relate several functions are public proof functions whose names
  start with `law_`. They stand in `src/log/laws.rs`, in
  `src/persistence/laws.rs`, and next to the decisions that they are about.
- `app/` runs the decisions against PostgreSQL. It reads rows, calls the
  library, and writes what the library decided, within transactions.
- `tests/` runs the library on concrete values.
