# sz_sdk

Interfaces and error model of the Senzing entity resolution SDK, written in
Verus.

- `src/kind.rs` — `SzComponent`, `SzErrorKind` and the tree of error kinds
  (families, hierarchy, severity, category, labels), with its laws.
- `src/errortypes.rs` — Senzing error types and the classification of
  numeric error codes.
- `src/error.rs` — `SzError` (builders, accessors, display text),
  `AnyError` error chains, and direct classification helpers.
- `src/inspect.rs` — `SzErrorInspect`: whether a chain holds a Senzing
  error of a family (any `SzError` in it, nested sources included), and
  the kind, component and severity of the first `SzError` in it.
- `src/result_ext.rs` — `SzResult` and `SzResultExt`.
- `src/decimal.rs` — decimal text of error codes.
- `src/config.rs`, `config_manager.rs`, `diagnostic.rs`, `engine.rs`,
  `factory.rs`, `product.rs` — component traits for SDK backends;
  `src/parameters.rs` — parameter constants.
- `app/lib.rs` — `std::error::Error` integration (`Display`, `source()`,
  reading any `dyn Error` as an `AnyError` chain).
