# synclined_core

SyncLined's Task State Engine: a local, single-developer task board on which agents
propose typed task-state records (goal, decision, change, open question, handoff) and
only the developer confirms, edits, rejects, releases sensitive records or revokes
sessions. State lives in SQLite.

Layout of `src/` (verified with Verus):

- `records.rs` — record kinds, review statuses, release states and their stored names.
- `text.rs`, `policy.rs` — character-level helpers and the explicit sensitive-marker policy.
- `ledger.rs` — a task's records as read from storage; board version, staleness and
  conflict detection; planning of proposals.
- `views.rs` — snapshot, review queue, heartbeat and curated handoff.
- `review.rs` — accept / reject / edit / release decisions and the laws they keep.
- `storage.rs` — the SQL layout, decoding of rows and encoding of writes, with
  read-back laws.
- `sqlite.rs` — the thin, trusted calls into `rusqlite`; each returns a receipt of the
  request it made, of what came back and of the database file it was made on.
- `board.rs`, `api.rs` — the engine over its database, the versioned Task Access API,
  the loopback relay and the board view. Results and errors of reads through a shared
  board carry the receipts of their requests, and the contracts state each outcome in
  terms of them, all made on the board's own file; mutating operations keep them in the
  board's log of requests.
- `read_back.rs` — what later reads show after the engine's writes, for a store that
  answers with the rows it was written.

`app/` holds the HTTP server (axum) that serves the board page and the API.
