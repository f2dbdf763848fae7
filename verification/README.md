# tmgr

A task manager for the command line, written as a Verus library with a thin
executable around it.

- `src/` is the verified library.  The commands of the current command line
  live in `src/commands/` (`add`, `complete`, `delete`, `list`, `migrate`,
  `note`, `status`, `update`, `upgrade`, `view`, and the terminal interface's
  state in `tui/`); tasks, errors and command results are in `src/model.rs`,
  and choosing a task by the beginning of its id is in `src/db.rs`.
  The configuration-file front end (state manager, database and task
  commands) is under `src/parser/`; the `.env` based storage and the earliest
  SQLite layer are `src/persistent.rs`, `src/state_mgr.rs`, `src/db_ops.rs`
  and `src/commands/db_cmds/`.
- Every step that touches the file system, the task store, the network or
  the terminal is done by the caller: the library names the file or request,
  and turns what came back into the command's outcome.  Proof functions named
  `law_*` state the properties that tie several functions together.
- `app/` is the executable: argument parsing with clap, the SurrealDB store,
  downloads with reqwest, and the editor.  The store is the `surrealdb`
  crate, which `Cargo.toml` does not declare (the library does not need it),
  so `app/` builds only once `surrealdb` is added to `[dependencies]`.
- `tests/` exercises the library on concrete values.
