# daily_tasks

The request-handling logic of a daily task list web service, written in
Verus and verified.

- `src/` is the verified library. It holds the records the service reads and
  writes (`domain`), its error types (`errors`), its HTTP answers as plain
  values (`responses`), the shared password and session checks
  (`authentication`), the rows it writes to the database (`queries`), the
  decisions each endpoint takes between its database and session steps
  (`handlers`, and the older endpoint versions in `routes`), and the route
  table and session cookie (`startup`).
  Multi-step endpoints (sign-up, password change) are written as a sequence
  of stage types: a value of a later stage exists only when the earlier
  steps succeeded, and its type invariant records what was checked.
- `app/` is the actix-web service around it: configuration, the PostgreSQL
  queries, sessions in Redis, password hashing, the handlers that perform the
  I/O and hand each outcome to the library, and the server setup.
- `tests/` exercise the library.
