# qa_rs

The logic of a small question-and-answer service (an HTTP server with a
Redis response cache, and a command-line client), with its contracts proved.

- `src/` — the library, every function with a proved contract: access rules and error statuses of the API
  (`auth`, `app_error`), paging (`pagination`), server settings and their
  environment overrides (`server_config`), the caching middleware as a state
  machine with its cache keys and lifetimes (`cache`), the client's requests,
  status handling and input parsing (`client`), what the client prints
  (`display`, `time_ago`), and the text helpers they share (`text`).
- `app/` — the programs around it: the axum/SQLite server, the Redis
  connection and middleware loop, and the `qa` command-line client.
- `tests/` — tests of the library on concrete values.
