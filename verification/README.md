# webext_storage_bridge

The sync bridge of the WebExtension `storage.sync` store, verified with Verus.

An operation of the bridge does not touch the database. It answers a step, the
application performs the step and hands the answer back, and so on until the
operation is done.

- `src/engine.rs`: the engine, and the script that each operation runs
- `src/session.rs`: how a script advances from step to step
- `src/reply.rs`: the decisions taken on what a script reads
- `src/bridge.rs`: the bridge in front of an engine, where records are JSON text
- `src/action.rs`, `src/host.rs`, `src/error.rs`: steps, application types, errors
- `src/weak.rs`: the engine's weak reference to its store
- `src/model.rs`: a model of the tables, of transactions and of whole runs
- `src/laws.rs`: what each operation does to the tables over a whole run
- `app/`: runs the scripts against SQLite
- `tests/`: the same against an in-memory SQLite database
