# deductio

The verified core of the deductio knowledge-graph service.

- `src/` — the library, verified with Verus: the records of the service
  (`model/`), search results, users and sign-in, and planning requests
  (`api/`), decimal text of ids (`text.rs`), paging (`paging.rs`) and errors.
- `tests/` — tests of the library on concrete values.
- `app/` — the Rocket web service around the library: routes, Postgres
  queries through diesel, the GitHub sign-in, and the serde/Rocket copies of
  the library's types.
