# xsql

Converts SQL schema DDL between MySQL, PostgreSQL and SQLite, and reads, diffs and
writes an experimental richer intermediate representation (IR v2). The library is
written in Verus: each public function carries a contract, and Verus proves the code
against it.

## Layout

- `src/ir.rs`, `src/v2.rs`: the minimal IR and IR v2, with their mathematical views.
- `src/sqlmodel.rs`: the one call into `sqlparser` and the plain values taken from
  its syntax tree; `src/sqlguard.rs` refuses the scripts on which `sqlparser` could
  panic; `src/parse.rs` maps those values to both IRs.
- `src/emit.rs`, `src/emit_postgres.rs`, `src/emit_v2.rs`: DDL writers, each stated
  as an exact text.
- `src/diff.rs`, `src/names.rs`, `src/alter.rs`: the structural diff of two v2
  schemas (tables and columns matched by name, every list in name order) and the
  ALTER scaffold built on it, with the laws they obey. Tables and columns are
  keyed by `String` names; vstd's specifications of `BTreeMap` and `BTreeSet` give
  nothing usable for `String` keys, so the diff keeps the names in vectors, sorts
  them by the `String` order it states itself (`text::seq_lt`) and proves what the
  sorted-set operations would have given.
- `src/roundtrip.rs`: the laws that reading back what a writer wrote gives the
  schema back, given that `sqlparser` reads the written DDL as the statements that
  spell it.
- `src/cli.rs`, `src/tui_logic.rs`, `src/tui_state.rs`: the decisions of the command
  line (dialect names, file names) and the terminal interface as a state machine
  (keys, cursor moves, search, the work each key asks for).
- `src/text.rs`: character-sequence helpers and their specifications.
- `app/`: the `xsql` program (argument parsing, files, JSON, terminal drawing),
  which calls the library.
- `tests/`: tests of the library on concrete values.
