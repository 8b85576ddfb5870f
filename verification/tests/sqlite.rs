//! Runs the engine's sessions against an in-memory SQLite database.

use rusqlite::types::{FromSql, ToSql};
use rusqlite::{Connection, OptionalExtension, Transaction};
use std::sync::{Arc, Mutex};
use webext_storage_bridge::action::{
    Action, Response, LAST_SYNC_META_KEY, RESET_SQL, SYNC_ID_META_KEY, WIPE_SQL,
};
use webext_storage_bridge::bridge::{WebExtStorageBridgedEngine, WebExtStorageStore};
use webext_storage_bridge::engine::{BridgedEngine, SyncEngine};
use webext_storage_bridge::error::{Error, Failure};
use webext_storage_bridge::host::SyncHost;
use webext_storage_bridge::session::Step;

type Db = Mutex<Connection>;

struct SqliteHost;

impl SyncHost for SqliteHost {
    type Store = Db;
    type Cause = String;
    type IncomingBso = String;
    type IncomingContent = String;
    type IncomingItem = String;
    type IncomingState = String;
    type IncomingAction = String;
    type OutgoingBso = String;
    type Guid = String;

    fn into_content(bso: String) -> String {
        bso
    }

    fn plan_incoming(state: String) -> String {
        format!("plan for {}", state)
    }

    fn parse_incoming(json: String) -> Result<String, String> {
        serde_json::from_str::<String>(&json).map_err(|e| e.to_string())
    }

    fn serialize_outgoing(record: String) -> Result<String, String> {
        serde_json::to_string(&record).map_err(|e| e.to_string())
    }
}

fn new_mem_db() -> Arc<Db> {
    let conn = Connection::open_in_memory().unwrap();
    conn.execute_batch(
        "CREATE TABLE storage_sync_data (
             ext_id TEXT NOT NULL PRIMARY KEY,
             data TEXT,
             sync_change_counter INTEGER NOT NULL DEFAULT 1
         );
         CREATE TABLE storage_sync_mirror (
             guid TEXT NOT NULL PRIMARY KEY,
             ext_id TEXT NOT NULL UNIQUE,
             data TEXT
         );
         CREATE TABLE meta (key TEXT PRIMARY KEY, value NOT NULL);
         CREATE TEMP TABLE staged_incoming (content TEXT NOT NULL);
         CREATE TEMP TABLE staged_outgoing (content TEXT NOT NULL);",
    )
    .unwrap();
    Arc::new(Mutex::new(conn))
}

fn get_meta<T: FromSql>(conn: &Connection, key: &str) -> Result<Option<T>, String> {
    conn.query_row("SELECT value FROM meta WHERE key = ?1", [key], |row| row.get(0))
        .optional()
        .map_err(|e| e.to_string())
}

fn put_meta(conn: &Connection, key: &str, value: &dyn ToSql) -> Result<(), String> {
    conn.execute("REPLACE INTO meta (key, value) VALUES (?1, ?2)", [&key as &dyn ToSql, value])
        .map(|_| ())
        .map_err(|e| e.to_string())
}

fn delete_meta(conn: &Connection, key: &str) -> Result<(), String> {
    conn.execute("DELETE FROM meta WHERE key = ?1", [key]).map(|_| ()).map_err(|e| e.to_string())
}

fn stage(conn: &Connection, table: &str, content: &str) -> Result<(), String> {
    conn.execute(&format!("INSERT INTO {} VALUES (?1)", table), [content])
        .map(|_| ())
        .map_err(|e| e.to_string())
}

fn insert_data(conn: &Connection, ext_id: &str, data: &str) -> Result<(), String> {
    conn.execute(
        "INSERT INTO storage_sync_data (ext_id, data, sync_change_counter) VALUES (?1, ?2, 1)",
        [ext_id, data],
    )
    .map(|_| ())
    .map_err(|e| e.to_string())
}

fn staged(conn: &Connection, table: &str) -> Vec<String> {
    let mut query = conn.prepare(&format!("SELECT content FROM {}", table)).unwrap();
    let rows = query.query_map([], |row| row.get::<_, String>(0)).unwrap();
    rows.map(|row| row.unwrap()).collect()
}

type Outcome = Result<Response<SqliteHost>, Failure<String>>;

/// Runs a session. If `fail_at` is given, the step of that number fails.
fn run_failing(step: Step<SqliteHost>, fail_at: Option<usize>) -> Outcome {
    let (store, session) = match step {
        Step::Perform(Action::LockStore(store), session) => (store, session),
        Step::Done(result) => return result,
        _ => panic!("a session starts by locking the store"),
    };
    let conn = store.lock().unwrap();
    let mut tx: Option<Transaction> = None;
    let mut step = session.resume(Ok(()));
    let mut n = 0;
    loop {
        n += 1;
        let fails = fail_at == Some(n);
        step = match step {
            Step::Perform(_, session) if fails => session.resume(Err(format!("step {}", n))),
            Step::Perform(action, session) => {
                let answer = match action {
                    Action::LockStore(_) => panic!("already locked"),
                    Action::GetConnection | Action::BeginInterruptScope => Ok(()),
                    Action::BeginTransaction => {
                        tx = Some(conn.unchecked_transaction().unwrap());
                        Ok(())
                    }
                    Action::ExecuteBatch(sql) => conn.execute_batch(sql).map_err(|e| e.to_string()),
                    Action::PutMetaInteger(key, value) => put_meta(&conn, key, &value),
                    Action::PutMetaText(key, value) => put_meta(&conn, key, &value),
                    Action::DeleteMeta(key) => delete_meta(&conn, key),
                    Action::Commit => {
                        tx.take().expect("a transaction is open").commit().map_err(|e| e.to_string())
                    }
                    Action::CreateEmptySyncTempTables => conn
                        .execute_batch("DELETE FROM staged_incoming; DELETE FROM staged_outgoing;")
                        .map_err(|e| e.to_string()),
                    Action::StageIncoming(contents) => {
                        contents.iter().try_for_each(|content| stage(&conn, "staged_incoming", content))
                    }
                    Action::ApplyActions(actions) => {
                        actions.iter().try_for_each(|(item, action)| insert_data(&conn, item, action))
                    }
                    Action::StageOutgoing => conn
                        .execute_batch(
                            "INSERT INTO staged_outgoing SELECT ext_id FROM storage_sync_data
                                 WHERE sync_change_counter > 0 ORDER BY ext_id;",
                        )
                        .map_err(|e| e.to_string()),
                    Action::RecordUploaded(ids) => ids.iter().try_for_each(|id| {
                        conn.execute(
                            "UPDATE storage_sync_data SET sync_change_counter = 0 WHERE ext_id = ?1",
                            [id],
                        )
                        .map(|_| ())
                        .map_err(|e| e.to_string())
                    }),
                };
                session.resume(answer)
            }
            Step::GetMetaInteger(key, reply) => reply.resume(get_meta(&conn, key)),
            Step::GetMetaText(key, reply) => reply.resume(get_meta(&conn, key)),
            Step::NewGuid(reply) => reply.resume("AAAAAAAAAAAA".to_string()),
            Step::GetIncoming(reply) if fails => reply.resume(Err(format!("step {}", n))),
            Step::GetIncoming(reply) => reply.resume(Ok(staged(&conn, "staged_incoming")
                .into_iter()
                .map(|content| (content.clone(), format!("state of {}", content)))
                .collect())),
            Step::GetOutgoing(reply) if fails => reply.resume(Err(format!("step {}", n))),
            Step::GetOutgoing(reply) => reply.resume(Ok(staged(&conn, "staged_outgoing"))),
            Step::Done(result) => return result,
        };
    }
}

fn run(step: Step<SqliteHost>) -> Response<SqliteHost> {
    match run_failing(step, None) {
        Ok(response) => response,
        Err(failure) => panic!("{:?}", failure),
    }
}

fn sync_id(engine: &BridgedEngine<SqliteHost>) -> Option<String> {
    match run(engine.sync_id()) {
        Response::OptionalText(id) => id,
        _ => unreachable!(),
    }
}

fn last_sync(engine: &BridgedEngine<SqliteHost>) -> i64 {
    match run(engine.last_sync()) {
        Response::Integer(millis) => millis,
        _ => unreachable!(),
    }
}

fn text(response: Response<SqliteHost>) -> String {
    match response {
        Response::Text(text) => text,
        _ => unreachable!(),
    }
}

fn query_count(conn: &Connection, table: &str) -> u32 {
    conn.query_row(&format!("SELECT COUNT(*) FROM {};", table), [], |row| row.get::<_, u32>(0))
        .expect("should work")
}

fn change_counter(conn: &Connection) -> u32 {
    conn.query_row(
        "SELECT sync_change_counter FROM storage_sync_data WHERE ext_id = 'ext-a';",
        [],
        |row| row.get::<_, u32>(0),
    )
    .unwrap()
}

// Sets up mock data for the tests here.
fn setup_mock_data(engine: &BridgedEngine<SqliteHost>) {
    {
        let shared = engine.thread_safe_storage_db().unwrap();
        let conn = shared.lock().unwrap();
        conn.execute(
            "INSERT INTO storage_sync_data (ext_id, data, sync_change_counter)
                VALUES ('ext-a', 'invalid-json', 2)",
            [],
        )
        .unwrap();
        conn.execute(
            "INSERT INTO storage_sync_mirror (guid, ext_id, data)
                VALUES ('guid', 'ext-a', '3')",
            [],
        )
        .unwrap();
    }
    assert!(matches!(run(engine.set_last_sync(1)), Response::Unit));

    let shared = engine.thread_safe_storage_db().unwrap();
    let conn = shared.lock().unwrap();
    // and assert we wrote what we think we did.
    assert_eq!(query_count(&conn, "storage_sync_data"), 1);
    assert_eq!(query_count(&conn, "storage_sync_mirror"), 1);
    assert_eq!(query_count(&conn, "meta"), 1);
}

// Assuming a DB setup with setup_mock_data, assert it was correctly reset.
fn assert_reset(engine: &BridgedEngine<SqliteHost>) {
    // A reset never wipes data...
    let shared = engine.thread_safe_storage_db().unwrap();
    let conn = shared.lock().unwrap();
    assert_eq!(query_count(&conn, "storage_sync_data"), 1);
    let data: String = conn
        .query_row("SELECT data FROM storage_sync_data WHERE ext_id = 'ext-a'", [], |r| r.get(0))
        .unwrap();
    assert_eq!(data, "invalid-json");

    // But did reset the change counter.
    assert_eq!(change_counter(&conn), 1);
    // But did wipe the mirror...
    assert_eq!(query_count(&conn, "storage_sync_mirror"), 0);
    // And the last_sync should have been wiped.
    assert!(get_meta::<i64>(&conn, LAST_SYNC_META_KEY).unwrap().is_none());
}

// Assuming a DB setup with setup_mock_data, assert it has not been reset.
fn assert_not_reset(engine: &BridgedEngine<SqliteHost>) {
    let shared = engine.thread_safe_storage_db().unwrap();
    let conn = shared.lock().unwrap();
    assert_eq!(query_count(&conn, "storage_sync_data"), 1);
    assert_eq!(change_counter(&conn), 2);
    assert_eq!(query_count(&conn, "storage_sync_mirror"), 1);
    // And the last_sync should remain.
    assert!(get_meta::<i64>(&conn, LAST_SYNC_META_KEY).unwrap().is_some());
}

fn put_sync_id(db: &Arc<Db>, id: &str) {
    put_meta(&db.lock().unwrap(), SYNC_ID_META_KEY, &id.to_string()).unwrap();
}

#[test]
fn test_wipe() {
    let strong = new_mem_db();
    let engine = BridgedEngine::<SqliteHost>::new(&strong);

    setup_mock_data(&engine);

    assert!(matches!(run(engine.wipe()), Response::Unit));

    let shared = engine.thread_safe_storage_db().unwrap();
    let conn = shared.lock().unwrap();

    assert_eq!(query_count(&conn, "storage_sync_data"), 0);
    assert_eq!(query_count(&conn, "storage_sync_mirror"), 0);
    assert_eq!(query_count(&conn, "meta"), 0);
}

#[test]
fn test_reset() {
    let strong = new_mem_db();
    let engine = BridgedEngine::<SqliteHost>::new(&strong);

    setup_mock_data(&engine);
    put_sync_id(&strong, "sync-id");

    assert!(matches!(run(engine.reset()), Response::Unit));
    assert_reset(&engine);

    // Only an explicit reset kills the sync-id, so check that here.
    assert_eq!(get_meta::<String>(&strong.lock().unwrap(), SYNC_ID_META_KEY).unwrap(), None);
}

#[test]
fn test_ensure_missing_sync_id() {
    let strong = new_mem_db();
    let engine = BridgedEngine::<SqliteHost>::new(&strong);

    setup_mock_data(&engine);

    assert_eq!(sync_id(&engine), None);
    // We don't have a sync ID - so setting one should reset.
    assert_eq!(text(run(engine.ensure_current_sync_id("new-id"))), "new-id");
    // should have cause a reset.
    assert_reset(&engine);
}

#[test]
fn test_ensure_new_sync_id() {
    let strong = new_mem_db();
    let engine = BridgedEngine::<SqliteHost>::new(&strong);

    setup_mock_data(&engine);
    put_sync_id(&strong, "old-id");

    assert_not_reset(&engine);
    assert_eq!(sync_id(&engine), Some("old-id".to_string()));

    assert_eq!(text(run(engine.ensure_current_sync_id("new-id"))), "new-id");
    // should have cause a reset.
    assert_reset(&engine);
    // should have the new id.
    assert_eq!(sync_id(&engine), Some("new-id".to_string()));
}

#[test]
fn test_ensure_same_sync_id() {
    let strong = new_mem_db();
    let engine = BridgedEngine::<SqliteHost>::new(&strong);

    setup_mock_data(&engine);
    assert_not_reset(&engine);
    put_sync_id(&strong, "sync-id");

    assert_eq!(text(run(engine.ensure_current_sync_id("sync-id"))), "sync-id");
    // should not have reset.
    assert_not_reset(&engine);
}

#[test]
fn test_reset_sync_id() {
    let strong = new_mem_db();
    let engine = BridgedEngine::<SqliteHost>::new(&strong);

    setup_mock_data(&engine);
    put_sync_id(&strong, "sync-id");

    assert_eq!(sync_id(&engine), Some("sync-id".to_string()));
    let new_id = text(run(engine.reset_sync_id()));
    assert_eq!(new_id, "AAAAAAAAAAAA");
    // should have cause a reset.
    assert_reset(&engine);
    assert_eq!(sync_id(&engine), Some(new_id));
}

#[test]
fn last_sync_reads_what_was_set() {
    let strong = new_mem_db();
    let engine = BridgedEngine::<SqliteHost>::new(&strong);
    assert_eq!(last_sync(&engine), 0);
    run(engine.set_last_sync(-5));
    assert_eq!(last_sync(&engine), -5);
    run(engine.set_last_sync(i64::MAX));
    assert_eq!(last_sync(&engine), i64::MAX);
}

#[test]
fn a_new_sync_id_forgets_the_last_sync() {
    let strong = new_mem_db();
    let engine = BridgedEngine::<SqliteHost>::new(&strong);
    run(engine.set_last_sync(7));
    run(engine.ensure_current_sync_id("a"));
    assert_eq!(last_sync(&engine), 0);
    run(engine.set_last_sync(8));
    run(engine.ensure_current_sync_id("a"));
    assert_eq!(last_sync(&engine), 8);
    run(engine.reset());
    assert_eq!(last_sync(&engine), 0);
    assert_eq!(sync_id(&engine), None);
}

#[test]
fn an_operation_that_fails_changes_nothing() {
    // The steps after the lock: connection, transaction, batch, two writes, commit.
    for fail_at in 1..7 {
        let strong = new_mem_db();
        let engine = BridgedEngine::<SqliteHost>::new(&strong);
        setup_mock_data(&engine);
        put_sync_id(&strong, "sync-id");
        let failure = Err(Failure::Step(format!("step {}", fail_at)));

        let outcome = run_failing(engine.reset(), Some(fail_at));
        assert_eq!(outcome.map(|_| ()), failure);
        assert_not_reset(&engine);
        assert_eq!(sync_id(&engine), Some("sync-id".to_string()));
    }
    for fail_at in 1..5 {
        let strong = new_mem_db();
        let engine = BridgedEngine::<SqliteHost>::new(&strong);
        setup_mock_data(&engine);
        assert!(run_failing(engine.wipe(), Some(fail_at)).is_err());
        assert_not_reset(&engine);
    }
    // A step past the end of the session is never reached.
    let strong = new_mem_db();
    let engine = BridgedEngine::<SqliteHost>::new(&strong);
    assert!(run_failing(engine.reset(), Some(7)).is_ok());
    assert!(run_failing(engine.wipe(), Some(5)).is_ok());
}

#[test]
fn an_ensure_that_fails_keeps_the_old_sync_id() {
    // The read of the sync ID is the second step, and does not fail here.
    for fail_at in [1, 3, 4, 5, 6, 7, 8] {
        let strong = new_mem_db();
        let engine = BridgedEngine::<SqliteHost>::new(&strong);
        setup_mock_data(&engine);
        put_sync_id(&strong, "old-id");
        assert!(run_failing(engine.ensure_current_sync_id("new-id"), Some(fail_at)).is_err());
        assert_not_reset(&engine);
        assert_eq!(sync_id(&engine), Some("old-id".to_string()));
    }
}

#[test]
fn a_new_sync_id_that_fails_keeps_the_old_one() {
    // The third step draws the identifier, and does not fail.
    for fail_at in [1, 2, 4, 5, 6, 7] {
        let strong = new_mem_db();
        let engine = BridgedEngine::<SqliteHost>::new(&strong);
        setup_mock_data(&engine);
        put_sync_id(&strong, "old-id");
        assert!(run_failing(engine.reset_sync_id(), Some(fail_at)).is_err());
        assert_not_reset(&engine);
        assert_eq!(sync_id(&engine), Some("old-id".to_string()));
    }
    let strong = new_mem_db();
    let engine = BridgedEngine::<SqliteHost>::new(&strong);
    assert!(run_failing(engine.set_last_sync(3), Some(2)).is_err());
    assert_eq!(last_sync(&engine), 0);
}

fn texts(list: &[&str]) -> Vec<String> {
    list.iter().map(|text| text.to_string()).collect()
}

#[test]
fn incoming_records_are_staged_or_none_is() {
    // The steps after the lock: scope, connection, transaction, staging, commit.
    for fail_at in 1..6 {
        let strong = new_mem_db();
        let engine = BridgedEngine::<SqliteHost>::new(&strong);
        stage(&strong.lock().unwrap(), "staged_incoming", "old").unwrap();
        let outcome = run_failing(engine.store_incoming(texts(&["a", "b"])), Some(fail_at));
        assert_eq!(outcome.map(|_| ()), Err(Failure::Step(format!("step {}", fail_at))));
        assert_eq!(staged(&strong.lock().unwrap(), "staged_incoming"), texts(&["old"]));
    }
    let strong = new_mem_db();
    let engine = BridgedEngine::<SqliteHost>::new(&strong);
    run(engine.store_incoming(texts(&["a", "b"])));
    assert_eq!(staged(&strong.lock().unwrap(), "staged_incoming"), texts(&["a", "b"]));
}

#[test]
fn items_are_applied_or_none_is() {
    // The steps after the lock: scope, connection, transaction, incoming items,
    // applying, staging, commit. The outgoing records are read after those.
    for fail_at in 1..9 {
        let strong = new_mem_db();
        let engine = BridgedEngine::<SqliteHost>::new(&strong);
        run(engine.store_incoming(texts(&["a", "b"])));
        let outcome = run_failing(engine.apply(), Some(fail_at));
        assert_eq!(outcome.map(|_| ()), Err(Failure::Step(format!("step {}", fail_at))));
        let conn = strong.lock().unwrap();
        let applied = if fail_at == 8 { 2 } else { 0 };
        assert_eq!(query_count(&conn, "storage_sync_data"), applied);
        assert_eq!(query_count(&conn, "staged_outgoing"), applied);
    }
    let strong = new_mem_db();
    let engine = BridgedEngine::<SqliteHost>::new(&strong);
    run(engine.store_incoming(texts(&["a", "b"])));
    match run(engine.apply()) {
        Response::Records(records) => assert_eq!(records, texts(&["a", "b"])),
        _ => unreachable!(),
    }
    let data: String = strong
        .lock()
        .unwrap()
        .query_row("SELECT data FROM storage_sync_data WHERE ext_id = 'b'", [], |r| r.get(0))
        .unwrap();
    assert_eq!(data, "plan for state of b");
}

#[test]
fn a_whole_sync_keeps_the_sync_id() {
    let strong = new_mem_db();
    let engine = BridgedEngine::<SqliteHost>::new(&strong);
    run(engine.ensure_current_sync_id("id"));
    run(engine.sync_started());
    run(engine.store_incoming(texts(&["a"])));
    run(engine.apply());
    run(engine.set_last_sync(5));
    run(engine.set_uploaded(99, texts(&["a"])));
    assert_eq!(last_sync(&engine), 5);
    assert_eq!(sync_id(&engine), Some("id".to_string()));
    // Ensuring the same ID again does not reset.
    assert_eq!(text(run(engine.ensure_current_sync_id("id"))), "id");
    assert_eq!(last_sync(&engine), 5);
    // A reset and a wipe leave what is staged.
    run(engine.reset());
    run(engine.wipe());
    assert_eq!(staged(&strong.lock().unwrap(), "staged_incoming"), texts(&["a"]));
    for _ in 0..2 {
        run(engine.sync_finished());
        let conn = strong.lock().unwrap();
        assert_eq!(query_count(&conn, "staged_incoming"), 0);
        assert_eq!(query_count(&conn, "staged_outgoing"), 0);
    }
}

#[test]
fn the_server_time_is_not_used() {
    for millis in [0, -1, 1234] {
        let strong = new_mem_db();
        let engine = BridgedEngine::<SqliteHost>::new(&strong);
        setup_mock_data(&engine);
        run(engine.set_uploaded(millis, texts(&["ext-a"])));
        assert_eq!(last_sync(&engine), 1);
        assert_eq!(change_counter(&strong.lock().unwrap()), 0);
    }
}

#[test]
fn engines_of_one_store_work_on_that_store() {
    let db = new_mem_db();
    let store = Arc::new(WebExtStorageStore::<SqliteHost> { db: db.clone() });
    let other_db = new_mem_db();
    let writer = store.clone().bridged_engine();
    let reader = store.bridged_engine();
    let other = BridgedEngine::<SqliteHost>::new(&other_db);
    run(writer.set_last_sync(21));
    assert!(matches!(run(reader.last_sync()), Response::Integer(21)));
    assert_eq!(last_sync(&other), 0);

    let engine = BridgedEngine::<SqliteHost>::new(&db);
    let count = Arc::strong_count(&db);
    let opened = engine.thread_safe_storage_db().unwrap();
    assert!(Arc::ptr_eq(&opened, &db));
    assert_eq!(Arc::strong_count(&db), count + 1);
    match engine.last_sync() {
        Step::Perform(Action::LockStore(locked), _) => assert!(Arc::ptr_eq(&locked, &db)),
        _ => panic!("the store is alive"),
    }
}

#[test]
fn an_engine_is_refused_once_its_store_is_dropped() {
    let store = Arc::new(WebExtStorageStore::<SqliteHost> { db: new_mem_db() });
    // The store is dropped by the call.
    let engine = store.bridged_engine();
    for step in vec![engine.last_sync(), engine.sync_id(), engine.apply(), engine.wipe()] {
        assert!(matches!(
            step,
            Step::Done(Err(Failure::Storage(Error::DatabaseConnectionClosed)))
        ));
    }
}

#[test]
fn a_dropped_store_is_refused() {
    let strong = new_mem_db();
    let engine = BridgedEngine::<SqliteHost>::new(&strong);
    drop(strong);
    assert_eq!(engine.thread_safe_storage_db().err(), Some(Error::DatabaseConnectionClosed));
    let closed = Failure::Storage(Error::DatabaseConnectionClosed);
    for step in vec![
        engine.last_sync(),
        engine.set_last_sync(1),
        engine.sync_id(),
        engine.reset_sync_id(),
        engine.ensure_current_sync_id("id"),
        engine.sync_started(),
        engine.store_incoming(vec!["a".to_string()]),
        engine.apply(),
        engine.set_uploaded(1, vec![]),
        engine.sync_finished(),
        engine.reset(),
        engine.wipe(),
    ] {
        match step {
            Step::Done(Err(failure)) => assert_eq!(failure, closed),
            _ => panic!("the store is gone"),
        }
    }
    assert!(matches!(engine.prepare_for_sync("{}"), Step::Done(Ok(Response::Unit))));
}

#[test]
fn an_engine_does_not_keep_its_store_alive() {
    let db = new_mem_db();
    let store = Arc::new(WebExtStorageStore::<SqliteHost> { db: db.clone() });
    let engine = store.bridged_engine();
    assert_eq!(Arc::strong_count(&db), 1);
    run(engine.set_last_sync(12));
    assert!(matches!(run(engine.last_sync()), Response::Integer(12)));
    assert!(matches!(run(engine.sync_id()), Response::OptionalText(None)));
    assert_eq!(text(run(engine.ensure_current_sync_id("id"))), "id");
    assert_eq!(text(run(engine.reset_sync_id())), "AAAAAAAAAAAA");
    run(engine.reset());
    run(engine.wipe());
    assert_eq!(query_count(&db.lock().unwrap(), "meta"), 0);
    drop(db);
    assert!(matches!(
        engine.last_sync(),
        Step::Done(Err(Failure::Storage(Error::DatabaseConnectionClosed)))
    ));
}

#[test]
fn statements_have_the_expected_text() {
    assert_eq!(LAST_SYNC_META_KEY, "last_sync_time");
    assert_eq!(SYNC_ID_META_KEY, "sync_id");
    let words: Vec<&str> = RESET_SQL.split_whitespace().collect();
    assert_eq!(
        words.join(" "),
        "DELETE FROM storage_sync_mirror; UPDATE storage_sync_data SET sync_change_counter = 1;"
    );
    assert_eq!(
        WIPE_SQL,
        "DELETE FROM storage_sync_data; DELETE FROM storage_sync_mirror; DELETE FROM meta;"
    );
}

#[test]
fn a_message_survives_as_a_sync_error() {
    let error = Error::from(anyhow::Error::msg("no such table"));
    assert_eq!(error, Error::SyncError("no such table".to_string()));
}

#[test]
fn records_cross_the_bridge_as_json() {
    let db = new_mem_db();
    let engine = WebExtStorageBridgedEngine::new(BridgedEngine::<SqliteHost>::new(&db));
    assert_eq!(
        engine.convert_incoming_bsos(vec!["\"a\"".to_string(), "\"b\"".to_string()]),
        Ok(vec!["a".to_string(), "b".to_string()])
    );
    assert_eq!(
        engine.convert_outgoing_bsos(vec!["a".to_string(), "b\"".to_string()]),
        Ok(vec!["\"a\"".to_string(), "\"b\\\"\"".to_string()])
    );
    assert!(engine.convert_incoming_bsos(vec!["\"a\"".to_string(), "{".to_string()]).is_err());
    assert!(matches!(
        engine.store_incoming(vec!["{".to_string()]),
        Step::Done(Err(Failure::Step(_)))
    ));
    assert!(matches!(
        engine.store_incoming(vec!["\"a\"".to_string()]),
        Step::Perform(Action::LockStore(_), _)
    ));
}

#[test]
fn a_value_of_another_type_is_not_read() {
    let strong = new_mem_db();
    let engine = BridgedEngine::<SqliteHost>::new(&strong);
    put_meta(&strong.lock().unwrap(), LAST_SYNC_META_KEY, &"soon").unwrap();
    put_meta(&strong.lock().unwrap(), SYNC_ID_META_KEY, &7).unwrap();
    for step in vec![engine.last_sync(), engine.sync_id(), engine.ensure_current_sync_id("id")] {
        assert!(matches!(run_failing(step, None), Err(Failure::Step(_))));
    }
    // Nothing was reset.
    assert_eq!(
        get_meta::<String>(&strong.lock().unwrap(), LAST_SYNC_META_KEY),
        Ok(Some("soon".to_string()))
    );
    assert_eq!(get_meta::<i64>(&strong.lock().unwrap(), SYNC_ID_META_KEY), Ok(Some(7)));
}
