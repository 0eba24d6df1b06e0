# zed_orm_core

The read-context foundation of the organization ORM core, verified with Verus.

- `src/` is the verified library: the pool policy (`policy`), the startup
  options and the verdict on a freshly opened SeaORM connection
  (`connection`), the Diesel companion's row check (`diesel_connection`), the
  evidence and readiness verdicts of a read context (`read`), the error type
  (`error`), and the laws that tie them together (`laws`).
- `app/` opens the connections and awaits the queries (SeaORM, Diesel,
  Tokio), and hands every reported value to the library for its verdict.
