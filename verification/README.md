# llingr_nexus

Contract types for the llingr message-processing ecosystem, verified with
Verus: the trait-bit field (`Traits`), the record view (`Message`, `Headers`,
`Header`, `Timestamp`), log severity (`LogLevel`), adapter vocabulary
(`Adapter`, `AutoOffsetReset`, `AdapterOptions`, `duration_ms_ceil`), the
telemetry packets and the optional handler traits.

- `src/` is the verified library. Each module states its operations over
  spec functions (`bit_is_set`, `with_app_bit`, `first_with_key`,
  `level_of_code`, `ms_ceil`, ...) and proves the library's laws as public
  proof functions named `lemma_*`.
- `src/text.rs` renders decimal integers in verified code; only the `{:?}`
  quoting of a string goes through `format!`.
- `app/` holds the two required handler traits, `ProcessHandler` and
  `DeadLetterHandler`, whose signatures carry `Box<dyn std::error::Error>`.
- `tests/` exercises the library on concrete values.
