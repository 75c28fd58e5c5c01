# pleme-error

Unified error handling for services in the railway-oriented style, verified
with Verus: the error type and its constructors, its rendered messages, its
retry and severity classification, HTTP status and error codes, GraphQL
extensions, conversions from other libraries' errors, and the grouping of
per-field validation messages each carry a contract that Verus proves. Where
a conversion depends on what an opaque outside error holds, the contract goes
through a named result of the outside call; an I/O error's kind is stated for
errors made with a kind, not for those decoded from an OS error code.

- `src/` is the verified library (one module per concern, see `src/lib.rs`).
- `app/` holds what belongs to the web stack around it: the serialisable error
  body, the Axum response, `std::error::Error` and `tracing` output.
- `tests/` runs the library against the real outside crates.
