# arrow_assoc

Associates native Rust values with the Arrow column that holds them: the
builder of the column, the field that describes it, and the integer that
Arrow stores for each date, time and timestamp.

- `src/temporal.rs`: dates, times and UTC instants as chrono keeps them, and
  their Arrow values (`Date32`, `Time64`, `Timestamp`), with chrono's
  timestamp functions behind trusted wrappers.
- `src/column.rs`: the `arrow` builders, each held in a struct whose rows are
  named by a spec function, with a second name for the room it was made
  with; trusted methods call the builder.  String and binary columns report
  their data bytes and whether a value still fits their offsets.
- `src/schema.rs`: the description of a field and its Arrow type.
- `src/assoc.rs`: the `ArrowAssoc` trait and its implementations, with the
  exact effect of each append stated through the trait's spec functions.
- `src/laws.rs`: laws across the implementations (nullable twins, `Option`
  appends, precision of microsecond values, decoding of nanosecond
  timestamps).
- `app/`: conversions from chrono values and to `arrow` fields, and the
  floating-point columns.

Everything under `src/` is verified with Verus; `tests/` runs the library
against the real `arrow` and `chrono` crates.
