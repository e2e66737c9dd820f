# remotty

The verified core of a bridge between Telegram and the Codex app-server.

- `src/` is the library, checked by Verus:
  - `model.rs`: lane modes and states, approval kinds and statuses, their
    stored texts, and the records the store keeps;
  - `store.rs`: the SQLite store (statements, parameters, row decoding);
    a store's view is the record of the calls it made into SQLite and what
    came back, and every operation states which calls it adds and how its
    result follows from their answers. `sqlite.rs` holds the connection
    and that record: its calls into `rusqlite` are the record's only
    writers, each recording exactly what it hands to SQLite. `clock.rs`
    holds the clock and identifiers;
  - `tables.rs`: what the store's statements do to the rows they read and
    write, and the laws that hold of a store's record on a database that
    answers that way (a request reads back as recorded, a lane created is
    found again, an update is recorded once, a request is resolved once,
    migrating again keeps every row);
  - `json.rs`: JSON values as the protocol logic reads them;
  - `app_server.rs`, `protocol.rs`, `turn.rs`: approval requests and their
    answers, the messages sent to the app-server, matching replies to
    calls, and following a turn until it pauses or completes;
  - `backlog.rs`: the app-server messages that wait while the client waits
    for something else, read once per wait and kept in order;
  - `secret.rs`: where protected secrets live and how loading one falls
    back to older locations and writes the secret back;
  - `text.rs`: string helpers.
- `app/` holds the I/O around it: the app-server process, the secret files
  and Windows DPAPI, and opening the store from a path.
- `tests/` exercises the library, the store against an in-memory SQLite.
