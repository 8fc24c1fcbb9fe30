# projeto_sd

A primary/backup replicated HTTP service for clients and orders, with strong
consistency: the primary confirms a write only after the backup acknowledged
it. The decisions of every endpoint, the in-memory storage and the
replication protocol are a library verified with Verus.

- `src/models.rs` — clients, orders, replication messages, API envelopes.
- `src/tabela.rs` — a table keyed by id (model: `Map`), sorted listing.
- `src/storage.rs` — a node's storage: clients and orders.
- `src/sync.rs` — the primary's side of replication, one step at a time.
- `src/api.rs` — what each endpoint decides and answers.
- `src/leis.rs` — properties spanning several operations.
- `src/externos.rs` — the trusted calls into `chrono` and `uuid`.
- `app/` — the axum server, JSON forms of the types, and the HTTP client
  that talks to the backup.
