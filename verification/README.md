# todo_api

A small to-do service with its logic verified by Verus.

- `src/` is the library. `todo::text` trims Unicode white space; `todo::domain`
  holds the validated title and description, the identity, and the to-do with its
  completion life cycle; `todo::repository` is the store abstraction and its model;
  `todo::infra::in_memory_repository` is a verified in-memory store;
  `todo::infra::postgres_repository` turns database rows into to-dos;
  `todo::service` holds the service and the decisions it makes after each store
  answer; `todo::handler` reads identities from request paths; `shared::error` maps
  errors to HTTP answers. `todo::external` holds the calls into `uuid` and `time`.
- `app/` is the HTTP server (axum) and the PostgreSQL store (sqlx). Each handler
  awaits the database and hands every answer to the library's decision functions.
- `tests/` runs the library on concrete values.
