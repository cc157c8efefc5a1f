# deltatable

A DuckDB extension that exposes Delta tables through the table function
`read_delta(location)`, and two small programs that write sample Delta
tables.

- `src/` is the verified library (Verus): the type mapping from Delta to
  DuckDB (`types`), the table function's bind step, cell conversion and
  chunk scan state machine (`table_function`), the layout of DuckDB string
  records (`strings`), C API constants (`constants`), the sample scalar
  function (`scalar`), text helpers (`text`), and the schemas, data and
  decisions of the populate programs (`populate`, `simple_populate`).
- `app/` is ordinary Rust around it: the extension entry point, the DuckDB
  callbacks, Delta, Parquet and Arrow I/O, the C API wrapper, and the
  populate programs' `main` functions.
- `tests/` runs the library on concrete values.

The C++ extension loader that registers a sample scalar function through
autocxx/cxx bindings of DuckDB's C++ headers is not part of `app/`: those
bindings are generated at build time from the DuckDB C++ source tree, which
this project does not carry. What that loader decides (the function's name,
schema and types, and the function's reply) is in `src/scalar.rs`.
