# server

An order service: orders arrive over HTTP, are checked, stored in Postgres
and cached in Redis. Orders that cannot reach a store are kept in memory,
retried in the background, and written to a file on shutdown so that the
next start picks them up again.

- `src/` is the library, verified with Verus: the order model and its
  validation, the error model and the replies it maps to, the in-memory
  retry queues, the decisions taken around each Postgres and Redis call,
  and the file format of pending orders (with its read-back laws).
- `app/` is the server around it: HTTP endpoints (axum), Postgres (sqlx),
  Redis (deadpool-redis), files and background tasks (tokio), settings
  (confique), logging (tracing) and the client script (clap, reqwest).
- `tests/` runs the library on concrete values.
