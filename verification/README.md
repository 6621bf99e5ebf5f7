# inicio_faucet

An internal faucet service that mints test tokens (P2ID notes) from fungible
faucet accounts. This crate holds its verified core; `app/` is the program
around it.

- `src/text.rs` — decimal formatting, trimming, ASCII lower-casing, with their
  specifications and the white-space laws.
- `src/mint.rs` — the order a worker receives, the note type and address
  parsers.
- `src/config.rs` — the configuration model and its checks.
- `src/http.rs` — request validation, the answer to each worker outcome,
  readiness, CORS origins.
- `src/worker.rs` — the worker loop's stop rule, splitting a batch, answering
  every job of a batch.
- `src/startup.rs` — the token list served by the API and the readiness gate.
- `src/create_faucet.rs` — argument checks and the report of `create-faucet`.
- `app/` — command line, TOML loading, the axum server, worker threads that
  drive the node client.
