# librdb (verified core)

A reader for Redis RDB dump files built on the C library librdb. librdb parses
the file and reports keys and values through callbacks; this crate holds, with
Verus proofs, every decision taken around those callbacks.

- `src/` — the verified library:
  - `types.rs`: errors (with their displayed text), data types, and the typed
    key and stream records, read from librdb's records;
  - `raw.rs`: librdb's callback records as plain values;
  - `dispatch.rs`: what a handler's result (or panic) tells librdb, and the
    error kept for the caller;
  - `parser.rs`: when a parse may start, the path handed to librdb, and what a
    finished or failed parse reports;
  - `decimal.rs`: decimal writing of integers for error messages;
  - `laws.rs`: properties that span several steps.
- `app/` — the unverified plumbing: the `RdbHandlers` trait (its scores are
  `f64`), the `extern "C"` callbacks with their panic guard, the handle that
  owns librdb's parser, and the user-facing error type with `Display`.
- `tests/` — tests of the verified library.
