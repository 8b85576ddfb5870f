//! Walks through sessions step by step.

use std::sync::Arc;
use webext_storage_bridge::action::{Action, Response};
use webext_storage_bridge::bridge::WebExtStorageBridgedEngine;
use webext_storage_bridge::engine::{BridgedEngine, SyncEngine};
use webext_storage_bridge::error::{Error, Failure};
use webext_storage_bridge::host::SyncHost;
use webext_storage_bridge::session::{Session, Step};

struct PlainHost;

impl SyncHost for PlainHost {
    type Store = u8;
    type Cause = &'static str;
    type IncomingBso = u32;
    type IncomingContent = u64;
    type IncomingItem = &'static str;
    type IncomingState = i32;
    type IncomingAction = i64;
    type OutgoingBso = u16;
    type Guid = &'static str;

    fn into_content(bso: u32) -> u64 {
        u64::from(bso) * 10
    }

    fn plan_incoming(state: i32) -> i64 {
        -i64::from(state)
    }

    fn parse_incoming(json: String) -> Result<u32, &'static str> {
        json.parse::<u32>().map_err(|_| if json.is_empty() { "empty" } else { "no number" })
    }

    fn serialize_outgoing(record: u16) -> Result<String, &'static str> {
        match record {
            404 => Err("not found"),
            500 => Err("broken"),
            _ => Ok(record.to_string()),
        }
    }
}

fn describe(action: &Action<PlainHost>) -> String {
    match action {
        Action::LockStore(store) => format!("lock {}", store),
        Action::GetConnection => "connection".to_string(),
        Action::BeginInterruptScope => "scope".to_string(),
        Action::BeginTransaction => "begin".to_string(),
        Action::ExecuteBatch(sql) => format!("batch {}", sql),
        Action::PutMetaInteger(key, value) => format!("put {} {}", key, value),
        Action::PutMetaText(key, value) => format!("put {} {}", key, value),
        Action::DeleteMeta(key) => format!("delete {}", key),
        Action::CreateEmptySyncTempTables => "temp tables".to_string(),
        Action::StageIncoming(contents) => format!("stage {:?}", contents),
        Action::ApplyActions(actions) => format!("apply {:?}", actions),
        Action::StageOutgoing => "stage outgoing".to_string(),
        Action::RecordUploaded(ids) => format!("uploaded {:?}", ids),
        Action::Commit => "commit".to_string(),
    }
}

/// Performs actions with success until a step of another kind comes.
fn perform(mut step: Step<PlainHost>) -> (Vec<String>, Step<PlainHost>) {
    let mut log = Vec::new();
    loop {
        step = match step {
            Step::Perform(action, session) => {
                log.push(describe(&action));
                session.resume(Ok(()))
            }
            other => return (log, other),
        };
    }
}

fn with_engine() -> (Arc<u8>, BridgedEngine<PlainHost>) {
    let store = Arc::new(9);
    let engine = BridgedEngine::<PlainHost>::new(&store);
    (store, engine)
}

#[test]
fn incoming_records_are_staged_in_a_transaction() {
    let (_store, engine) = with_engine();
    let (log, end) = perform(engine.store_incoming(vec![3, 1, 2]));
    assert_eq!(
        log,
        vec!["lock 9", "scope", "connection", "begin", "stage [30, 10, 20]", "commit"]
    );
    assert!(matches!(end, Step::Done(Ok(Response::Unit))));
}

#[test]
fn uploads_are_recorded_in_a_transaction() {
    let (_store, engine) = with_engine();
    let (log, end) = perform(engine.set_uploaded(77, vec!["b", "a"]));
    assert_eq!(
        log,
        vec!["lock 9", "connection", "scope", "begin", "uploaded [\"b\", \"a\"]", "commit"]
    );
    assert!(matches!(end, Step::Done(Ok(Response::Unit))));
}

#[test]
fn a_sync_starts_and_ends_with_empty_temp_tables() {
    let (_store, engine) = with_engine();
    for step in vec![engine.sync_started(), engine.sync_finished()] {
        let (log, end) = perform(step);
        assert_eq!(log, vec!["lock 9", "connection", "temp tables"]);
        assert!(matches!(end, Step::Done(Ok(Response::Unit))));
    }
}

#[test]
fn items_are_planned_and_applied() {
    let (_store, engine) = with_engine();
    let (log, step) = perform(engine.apply());
    assert_eq!(log, vec!["lock 9", "scope", "connection", "begin"]);
    let step = match step {
        Step::GetIncoming(reply) => reply.resume::<PlainHost>(Ok(vec![("x", 5), ("y", -6)])),
        _ => panic!("the incoming items come next"),
    };
    let (log, step) = perform(step);
    assert_eq!(log, vec!["apply [(\"x\", -5), (\"y\", 6)]", "stage outgoing", "commit"]);
    let end = match step {
        Step::GetOutgoing(reply) => reply.resume::<PlainHost>(Ok(vec![1, 2])),
        _ => panic!("the outgoing records come next"),
    };
    match end {
        Step::Done(Ok(Response::Records(records))) => assert_eq!(records, vec![1, 2]),
        _ => panic!("the records are answered"),
    }
}

#[test]
fn reads_that_fail_end_the_session() {
    let (_store, engine) = with_engine();
    let end = match perform(engine.apply()).1 {
        Step::GetIncoming(reply) => reply.resume::<PlainHost>(Err("no items")),
        _ => panic!("the incoming items come next"),
    };
    assert!(matches!(end, Step::Done(Err(Failure::Step("no items")))));
    let end = match perform(engine.last_sync()).1 {
        Step::GetMetaInteger("last_sync_time", reply) => reply.resume::<PlainHost>(Err("no meta")),
        _ => panic!("the last sync time comes next"),
    };
    assert!(matches!(end, Step::Done(Err(Failure::Step("no meta")))));
    for step in vec![engine.sync_id(), engine.ensure_current_sync_id("id")] {
        let end = match perform(step).1 {
            Step::GetMetaText("sync_id", reply) => reply.resume::<PlainHost>(Err("no meta")),
            _ => panic!("the sync ID comes next"),
        };
        assert!(matches!(end, Step::Done(Err(Failure::Step("no meta")))));
    }
    let step = match perform(engine.apply()).1 {
        Step::GetIncoming(reply) => reply.resume::<PlainHost>(Ok(vec![])),
        _ => panic!("the incoming items come next"),
    };
    let end = match perform(step).1 {
        Step::GetOutgoing(reply) => reply.resume::<PlainHost>(Err("no records")),
        _ => panic!("the outgoing records come next"),
    };
    assert!(matches!(end, Step::Done(Err(Failure::Step("no records")))));
}

#[test]
fn a_new_sync_id_is_drawn_inside_the_transaction() {
    let (_store, engine) = with_engine();
    let (log, step) = perform(engine.reset_sync_id());
    assert_eq!(log, vec!["lock 9", "connection", "begin"]);
    let step = match step {
        Step::NewGuid(reply) => reply.resume::<PlainHost>("fresh".to_string()),
        _ => panic!("an identifier is drawn"),
    };
    let (log, end) = perform(step);
    assert_eq!(log.len(), 4);
    assert!(log[0].starts_with("batch DELETE FROM storage_sync_mirror;"));
    assert_eq!(log[1..], ["delete last_sync_time", "put sync_id fresh", "commit"]);
    assert!(matches!(end, Step::Done(Ok(Response::Text(id))) if id == "fresh"));
}

#[test]
fn another_sync_id_is_replaced_under_a_reset() {
    let (_store, engine) = with_engine();
    for current in [None, Some("old".to_string()), Some("".to_string()), Some("wanted ".to_string())] {
        let step = match perform(engine.ensure_current_sync_id("wanted")).1 {
            Step::GetMetaText(_, reply) => reply.resume::<PlainHost>(Ok(current)),
            _ => panic!("the sync ID comes next"),
        };
        let (log, end) = perform(step);
        assert_eq!(log[..2], ["connection", "begin"]);
        assert!(log[2].starts_with("batch "));
        assert_eq!(log[3..], ["delete last_sync_time", "put sync_id wanted", "commit"]);
        assert!(matches!(end, Step::Done(Ok(Response::Text(id))) if id == "wanted"));
    }
    let step = match perform(engine.ensure_current_sync_id("wanted")).1 {
        Step::GetMetaText(_, reply) => reply.resume::<PlainHost>(Ok(Some("wanted".to_string()))),
        _ => panic!("the sync ID comes next"),
    };
    assert!(matches!(step, Step::Done(Ok(Response::Text(id))) if id == "wanted"));
}

#[test]
fn the_first_text_that_is_refused_is_reported() {
    let (_store, engine) = with_engine();
    let bridge = WebExtStorageBridgedEngine::new(engine);
    let texts = |list: &[&str]| list.iter().map(|s| s.to_string()).collect::<Vec<String>>();
    assert_eq!(bridge.convert_incoming_bsos(texts(&["1", "2"])), Ok(vec![1, 2]));
    assert_eq!(bridge.convert_incoming_bsos(texts(&[])), Ok(vec![]));
    assert_eq!(bridge.convert_incoming_bsos(texts(&["1", "", "x"])), Err("empty"));
    assert_eq!(bridge.convert_incoming_bsos(texts(&["x", ""])), Err("no number"));
    assert!(matches!(
        bridge.store_incoming(texts(&["1", "x"])),
        Step::Done(Err(Failure::Step("no number")))
    ));
    let (log, _) = perform(bridge.store_incoming(texts(&["1", "2"])));
    assert_eq!(log[4], "stage [10, 20]");
}

#[test]
fn applied_records_become_texts() {
    let (_store, engine) = with_engine();
    let bridge = WebExtStorageBridgedEngine::new(engine);
    assert_eq!(bridge.applied(Ok(vec![2, 1])), Ok(vec!["2".to_string(), "1".to_string()]));
    assert_eq!(bridge.applied(Ok(vec![2, 500, 404])), Err(Failure::Step("broken")));
    assert_eq!(bridge.applied(Err(Failure::Step("cause"))), Err(Failure::Step("cause")));
}

#[test]
fn the_bridge_forwards_to_its_engine() {
    let (_store, engine) = with_engine();
    let bridge = WebExtStorageBridgedEngine::new(engine);
    assert_eq!(perform(bridge.sync_started()).0, vec!["lock 9", "connection", "temp tables"]);
    assert_eq!(perform(bridge.sync_finished()).0, vec!["lock 9", "connection", "temp tables"]);
    assert_eq!(
        perform(bridge.set_last_sync(4)).0,
        vec!["lock 9", "connection", "put last_sync_time 4"]
    );
    assert_eq!(perform(bridge.set_uploaded(1, vec!["g"])).0[4], "uploaded [\"g\"]");
    assert!(matches!(perform(bridge.apply()).1, Step::GetIncoming(_)));
    assert!(matches!(perform(bridge.prepare_for_sync("{}")).1, Step::Done(Ok(Response::Unit))));
}

#[test]
fn an_exhausted_session_ends_with_its_response() {
    let session = Session::<PlainHost> {
        todo: vec![],
        tail: webext_storage_bridge::session::Tail::Return(Response::Integer(3)),
    };
    assert!(matches!(session.next(), Step::Done(Ok(Response::Integer(3)))));
}

#[test]
fn a_missing_store_is_a_closed_connection() {
    assert_eq!(BridgedEngine::<PlainHost>::store_or_closed(Some(Arc::new(4))), Ok(Arc::new(4)));
    assert_eq!(
        BridgedEngine::<PlainHost>::store_or_closed(None),
        Err(Error::DatabaseConnectionClosed)
    );
}

#[test]
fn a_script_opens_on_a_store_or_is_refused() {
    let sessions = || {
        vec![
            BridgedEngine::<PlainHost>::last_sync_session(),
            BridgedEngine::<PlainHost>::set_last_sync_session(1),
            BridgedEngine::<PlainHost>::sync_id_session(),
            BridgedEngine::<PlainHost>::reset_sync_id_session(),
            BridgedEngine::<PlainHost>::ensure_current_sync_id_session("x"),
            BridgedEngine::<PlainHost>::temp_tables_session(),
            BridgedEngine::<PlainHost>::store_incoming_session(vec![1]),
            BridgedEngine::<PlainHost>::apply_session(),
            BridgedEngine::<PlainHost>::set_uploaded_session(1, vec!["g"]),
            BridgedEngine::<PlainHost>::reset_session(),
            BridgedEngine::<PlainHost>::wipe_session(),
        ]
    };
    for session in sessions() {
        assert!(matches!(
            BridgedEngine::open_or_closed(None, session),
            Step::Done(Err(Failure::Storage(Error::DatabaseConnectionClosed)))
        ));
    }
    for session in sessions() {
        let expected: Vec<String> = session.todo.iter().map(describe).collect();
        let (log, _) = perform(BridgedEngine::open_or_closed(Some(Arc::new(5)), session));
        assert_eq!(log[0], "lock 5");
        assert_eq!(log[1..], expected);
    }
}

#[test]
fn a_reset_appends_its_actions_without_a_commit() {
    let mut todo: Vec<Action<PlainHost>> = vec![Action::GetConnection];
    BridgedEngine::do_reset(&mut todo);
    let log: Vec<String> = todo.iter().map(describe).collect();
    assert_eq!(log.len(), 3);
    assert_eq!(log[0], "connection");
    assert!(log[1].starts_with("batch DELETE FROM storage_sync_mirror;"));
    assert_eq!(log[2], "delete last_sync_time");
}
