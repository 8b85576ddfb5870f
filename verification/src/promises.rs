//! What callers can rely on, stated of the calls themselves: of what a function
//! that was called with these arguments may have answered.

use crate::action::{
    Action, ActionView, Response, ResponseView, LAST_SYNC_META_KEY, SYNC_ID_META_KEY,
};
use crate::engine::{BridgedEngine, Request, SyncEngine};
use crate::error::{Error, Failure};
use crate::host::SyncHost;
use crate::laws;
use crate::model::{Environment, MetaValue, Tables, World};
use crate::session::Step;
use std::sync::Arc;
use vstd::prelude::*;

verus! {

/// Where the store is there and no step fails, `last_sync` answers the time that is
/// set, or zero if none is, and changes nothing.
/// It is refused only if upgrading the engine's reference gave nothing.
pub proof fn law_live_last_sync<H: SyncHost>(
    engine: BridgedEngine<H>,
    step: Step<H>,
    tables: Tables,
    env: Environment<H>,
)
    requires
        call_ensures(BridgedEngine::<H>::last_sync, (&engine,), step),
    ensures
        match step {
            Step::Perform(Action::LockStore(store), _) => {
                &&& store == engine.store()
                &&& call_ensures(BridgedEngine::<H>::upgraded, (&engine,), Some(store))
            },
            Step::Done(Err(Failure::Storage(Error::DatabaseConnectionClosed))) => call_ensures(
                BridgedEngine::<H>::upgraded,
                (&engine,),
                None,
            ),
            _ => false,
        },
        step is Perform && env.smooth(3) && (tables.meta.contains_key(
            LAST_SYNC_META_KEY@,
        ) ==> tables.meta[LAST_SYNC_META_KEY@] is Integer) ==> {
            let outcome = step@.run(World::at_rest(tables), env, 0);
            &&& outcome.result == Ok::<ResponseView<H>, Failure<H::Cause>>(
                ResponseView::Integer(
                    if tables.meta.contains_key(LAST_SYNC_META_KEY@) {
                        tables.meta[LAST_SYNC_META_KEY@]->Integer_0
                    } else {
                        0
                    },
                ),
            )
            &&& outcome.tables == tables
        },
{
    laws::law_last_sync(engine, step@, tables, env);
}

/// Where the store is there and no step fails, `set_last_sync` leaves that very time
/// under the last sync key, whatever the time is, and changes nothing else.
/// It is refused only if upgrading the engine's reference gave nothing.
pub proof fn law_live_set_last_sync<H: SyncHost>(
    engine: BridgedEngine<H>,
    millis: i64,
    step: Step<H>,
    tables: Tables,
    env: Environment<H>,
)
    requires
        call_ensures(BridgedEngine::<H>::set_last_sync, (&engine, millis), step),
    ensures
        match step {
            Step::Perform(Action::LockStore(store), _) => {
                &&& store == engine.store()
                &&& call_ensures(BridgedEngine::<H>::upgraded, (&engine,), Some(store))
            },
            Step::Done(Err(Failure::Storage(Error::DatabaseConnectionClosed))) => call_ensures(
                BridgedEngine::<H>::upgraded,
                (&engine,),
                None,
            ),
            _ => false,
        },
        step is Perform && env.smooth(3) ==> {
            let outcome = step@.run(World::at_rest(tables), env, 0);
            &&& outcome.result == Ok::<ResponseView<H>, Failure<H::Cause>>(ResponseView::Unit)
            &&& outcome.tables.meta == tables.meta.insert(
                LAST_SYNC_META_KEY@,
                MetaValue::Integer(millis),
            )
            &&& outcome.tables.data == tables.data
            &&& outcome.tables.mirror == tables.mirror
            &&& outcome.tables.staged == tables.staged
        },
{
    laws::law_set_last_sync(engine, millis, step@, tables, env);
}

/// Where the store is there and no step fails, `sync_id` answers the sync ID that is
/// set, or that none is, and changes nothing.
/// It is refused only if upgrading the engine's reference gave nothing.
pub proof fn law_live_sync_id<H: SyncHost>(
    engine: BridgedEngine<H>,
    step: Step<H>,
    tables: Tables,
    env: Environment<H>,
)
    requires
        call_ensures(BridgedEngine::<H>::sync_id, (&engine,), step),
    ensures
        match step {
            Step::Perform(Action::LockStore(store), _) => {
                &&& store == engine.store()
                &&& call_ensures(BridgedEngine::<H>::upgraded, (&engine,), Some(store))
            },
            Step::Done(Err(Failure::Storage(Error::DatabaseConnectionClosed))) => call_ensures(
                BridgedEngine::<H>::upgraded,
                (&engine,),
                None,
            ),
            _ => false,
        },
        step is Perform && env.smooth(3) && (tables.meta.contains_key(
            SYNC_ID_META_KEY@,
        ) ==> tables.meta[SYNC_ID_META_KEY@] is Text) ==> {
            let outcome = step@.run(World::at_rest(tables), env, 0);
            &&& outcome.result == Ok::<ResponseView<H>, Failure<H::Cause>>(
                ResponseView::OptionalText(
                    if tables.meta.contains_key(SYNC_ID_META_KEY@) {
                        Some(tables.meta[SYNC_ID_META_KEY@]->Text_0)
                    } else {
                        None
                    },
                ),
            )
            &&& outcome.tables == tables
        },
{
    laws::law_sync_id(engine, step@, tables, env);
}

/// Where the store is there and no step fails, `reset_sync_id` answers the identifier
/// that was drawn and leaves it as the sync ID, with the mirror empty, the last sync
/// time forgotten, and every row kept and marked as changed once.
/// It is refused only if upgrading the engine's reference gave nothing.
pub proof fn law_live_reset_sync_id<H: SyncHost>(
    engine: BridgedEngine<H>,
    step: Step<H>,
    tables: Tables,
    env: Environment<H>,
)
    requires
        call_ensures(BridgedEngine::<H>::reset_sync_id, (&engine,), step),
    ensures
        match step {
            Step::Perform(Action::LockStore(store), _) => {
                &&& store == engine.store()
                &&& call_ensures(BridgedEngine::<H>::upgraded, (&engine,), Some(store))
            },
            Step::Done(Err(Failure::Storage(Error::DatabaseConnectionClosed))) => call_ensures(
                BridgedEngine::<H>::upgraded,
                (&engine,),
                None,
            ),
            _ => false,
        },
        step is Perform && env.smooth(7) ==> {
            let outcome = step@.run(World::at_rest(tables), env, 0);
            &&& outcome.result == Ok::<ResponseView<H>, Failure<H::Cause>>(
                ResponseView::Text(env.guid),
            )
            &&& outcome.tables.meta == tables.meta.remove(LAST_SYNC_META_KEY@).insert(
                SYNC_ID_META_KEY@,
                MetaValue::Text(env.guid),
            )
            &&& outcome.tables.data.len() == tables.data.len()
            &&& forall|i: int|
                0 <= i < tables.data.len() ==> {
                    &&& (#[trigger] outcome.tables.data[i]).ext_id == tables.data[i].ext_id
                    &&& outcome.tables.data[i].data == tables.data[i].data
                    &&& outcome.tables.data[i].sync_change_counter == 1
                }
            &&& outcome.tables.mirror.len() == 0
            &&& outcome.tables.staged == tables.staged
        },
{
    laws::law_reset_sync_id(engine, step@, tables, env);
}

/// Where the store is there and no step fails, `ensure_current_sync_id` answers the
/// wanted sync ID, whatever it is. If it was the sync ID, nothing changes. If it was
/// not, it is left as the sync ID, with the mirror empty, the last sync time
/// forgotten, and every row kept and marked as changed once.
/// It is refused only if upgrading the engine's reference gave nothing.
pub proof fn law_live_ensure_current_sync_id<H: SyncHost>(
    engine: BridgedEngine<H>,
    sync_id: &str,
    step: Step<H>,
    tables: Tables,
    env: Environment<H>,
)
    requires
        call_ensures(BridgedEngine::<H>::ensure_current_sync_id, (&engine, sync_id), step),
    ensures
        match step {
            Step::Perform(Action::LockStore(store), _) => {
                &&& store == engine.store()
                &&& call_ensures(BridgedEngine::<H>::upgraded, (&engine,), Some(store))
            },
            Step::Done(Err(Failure::Storage(Error::DatabaseConnectionClosed))) => call_ensures(
                BridgedEngine::<H>::upgraded,
                (&engine,),
                None,
            ),
            _ => false,
        },
        step is Perform && env.smooth(9) && (tables.meta.contains_key(
            SYNC_ID_META_KEY@,
        ) ==> tables.meta[SYNC_ID_META_KEY@] is Text) ==> {
            let outcome = step@.run(World::at_rest(tables), env, 0);
            &&& outcome.result == Ok::<ResponseView<H>, Failure<H::Cause>>(
                ResponseView::Text(sync_id@),
            )
            &&& if tables.meta.contains_key(SYNC_ID_META_KEY@) && tables.meta[SYNC_ID_META_KEY@]
                == MetaValue::Text(sync_id@) {
                outcome.tables == tables
            } else {
                &&& outcome.tables.meta == tables.meta.remove(LAST_SYNC_META_KEY@).insert(
                    SYNC_ID_META_KEY@,
                    MetaValue::Text(sync_id@),
                )
                &&& outcome.tables.data.len() == tables.data.len()
                &&& forall|i: int|
                    0 <= i < tables.data.len() ==> {
                        &&& (#[trigger] outcome.tables.data[i]).ext_id == tables.data[i].ext_id
                        &&& outcome.tables.data[i].data == tables.data[i].data
                        &&& outcome.tables.data[i].sync_change_counter == 1
                    }
                &&& outcome.tables.mirror.len() == 0
                &&& outcome.tables.staged == tables.staged
            }
        },
{
    laws::law_ensure_current_sync_id(engine, sync_id@, step@, tables, env);
}

/// Where the store is there and no step fails, `sync_started` creates the temporary
/// tables, or empties them, and does nothing else.
/// It is refused only if upgrading the engine's reference gave nothing.
pub proof fn law_live_sync_started<H: SyncHost>(
    engine: BridgedEngine<H>,
    step: Step<H>,
    tables: Tables,
    env: Environment<H>,
)
    requires
        call_ensures(BridgedEngine::<H>::sync_started, (&engine,), step),
    ensures
        match step {
            Step::Perform(Action::LockStore(store), _) => {
                &&& store == engine.store()
                &&& call_ensures(BridgedEngine::<H>::upgraded, (&engine,), Some(store))
            },
            Step::Done(Err(Failure::Storage(Error::DatabaseConnectionClosed))) => call_ensures(
                BridgedEngine::<H>::upgraded,
                (&engine,),
                None,
            ),
            _ => false,
        },
        step is Perform && env.smooth(3) ==> {
            let outcome = step@.run(World::at_rest(tables), env, 0);
            &&& outcome.result == Ok::<ResponseView<H>, Failure<H::Cause>>(ResponseView::Unit)
            &&& outcome.tables == (env.effect)(
                ActionView::CreateEmptySyncTempTables,
                tables,
            )
        },
{
    laws::law_temp_tables(engine, Request::SyncStarted, step@, tables, env);
}

/// Where the store is there and no step fails, `sync_finished` creates the temporary
/// tables, or empties them, and does nothing else.
/// It is refused only if upgrading the engine's reference gave nothing.
pub proof fn law_live_sync_finished<H: SyncHost>(
    engine: BridgedEngine<H>,
    step: Step<H>,
    tables: Tables,
    env: Environment<H>,
)
    requires
        call_ensures(BridgedEngine::<H>::sync_finished, (&engine,), step),
    ensures
        match step {
            Step::Perform(Action::LockStore(store), _) => {
                &&& store == engine.store()
                &&& call_ensures(BridgedEngine::<H>::upgraded, (&engine,), Some(store))
            },
            Step::Done(Err(Failure::Storage(Error::DatabaseConnectionClosed))) => call_ensures(
                BridgedEngine::<H>::upgraded,
                (&engine,),
                None,
            ),
            _ => false,
        },
        step is Perform && env.smooth(3) ==> {
            let outcome = step@.run(World::at_rest(tables), env, 0);
            &&& outcome.result == Ok::<ResponseView<H>, Failure<H::Cause>>(ResponseView::Unit)
            &&& outcome.tables == (env.effect)(
                ActionView::CreateEmptySyncTempTables,
                tables,
            )
        },
{
    laws::law_temp_tables(engine, Request::SyncFinished, step@, tables, env);
}

/// Where the store is there and no step fails, `store_incoming` stages the contents of
/// all the records: as many as there are records, the i-th from the i-th.
/// It is refused only if upgrading the engine's reference gave nothing.
pub proof fn law_live_store_incoming<H: SyncHost>(
    engine: BridgedEngine<H>,
    bsos: Vec<H::IncomingBso>,
    step: Step<H>,
    tables: Tables,
    env: Environment<H>,
)
    requires
        call_ensures(BridgedEngine::<H>::store_incoming, (&engine, bsos), step),
    ensures
        match step {
            Step::Perform(Action::LockStore(store), _) => {
                &&& store == engine.store()
                &&& call_ensures(BridgedEngine::<H>::upgraded, (&engine,), Some(store))
            },
            Step::Done(Err(Failure::Storage(Error::DatabaseConnectionClosed))) => call_ensures(
                BridgedEngine::<H>::upgraded,
                (&engine,),
                None,
            ),
            _ => false,
        },
        step is Perform && env.smooth(6) ==> {
            let outcome = step@.run(World::at_rest(tables), env, 0);
            &&& outcome.result == Ok::<ResponseView<H>, Failure<H::Cause>>(ResponseView::Unit)
            &&& exists|contents: Seq<H::IncomingContent>|
                {
                    &&& contents.len() == bsos@.len()
                    &&& forall|i: int|
                        0 <= i < bsos@.len() ==> call_ensures(
                            H::into_content,
                            (bsos@[i],),
                            #[trigger] contents[i],
                        )
                    &&& outcome.tables == #[trigger] (env.effect)(
                        ActionView::StageIncoming(contents),
                        tables,
                    )
                }
        },
{
    assert(engine.starts(Request::StoreIncoming(bsos@), step@));
    laws::law_store_incoming(engine, bsos@, step@, tables, env);
}

/// Where the store is there and no step fails, `apply` applies what was planned for
/// the incoming items, stages the outgoing records, and answers those records.
/// It is refused only if upgrading the engine's reference gave nothing.
pub proof fn law_live_apply<H: SyncHost>(
    engine: BridgedEngine<H>,
    step: Step<H>,
    tables: Tables,
    env: Environment<H>,
)
    requires
        call_ensures(BridgedEngine::<H>::apply, (&engine,), step),
    ensures
        match step {
            Step::Perform(Action::LockStore(store), _) => {
                &&& store == engine.store()
                &&& call_ensures(BridgedEngine::<H>::upgraded, (&engine,), Some(store))
            },
            Step::Done(Err(Failure::Storage(Error::DatabaseConnectionClosed))) => call_ensures(
                BridgedEngine::<H>::upgraded,
                (&engine,),
                None,
            ),
            _ => false,
        },
        step is Perform && env.smooth(9) ==> {
            let outcome = step@.run(World::at_rest(tables), env, 0);
            let actions = (env.plan)((env.incoming)(tables));
            &&& outcome.tables == (env.effect)(
                ActionView::StageOutgoing,
                (env.effect)(ActionView::ApplyActions(actions), tables),
            )
            &&& outcome.result == Ok::<ResponseView<H>, Failure<H::Cause>>(
                ResponseView::Records((env.outgoing)(outcome.tables)),
            )
        },
{
    laws::law_apply(engine, step@, tables, env);
}

/// Where the store is there and no step fails, `set_uploaded` records the upload of
/// all these records, and does nothing else.
/// It is refused only if upgrading the engine's reference gave nothing.
pub proof fn law_live_set_uploaded<H: SyncHost>(
    engine: BridgedEngine<H>,
    millis: i64,
    ids: Vec<H::Guid>,
    step: Step<H>,
    tables: Tables,
    env: Environment<H>,
)
    requires
        call_ensures(BridgedEngine::<H>::set_uploaded, (&engine, millis, ids), step),
    ensures
        match step {
            Step::Perform(Action::LockStore(store), _) => {
                &&& store == engine.store()
                &&& call_ensures(BridgedEngine::<H>::upgraded, (&engine,), Some(store))
            },
            Step::Done(Err(Failure::Storage(Error::DatabaseConnectionClosed))) => call_ensures(
                BridgedEngine::<H>::upgraded,
                (&engine,),
                None,
            ),
            _ => false,
        },
        step is Perform && env.smooth(6) ==> {
            let outcome = step@.run(World::at_rest(tables), env, 0);
            &&& outcome.result == Ok::<ResponseView<H>, Failure<H::Cause>>(ResponseView::Unit)
            &&& outcome.tables == (env.effect)(ActionView::RecordUploaded(ids@), tables)
        },
{
    assert(engine.starts(Request::SetUploaded(millis, ids@), step@));
    laws::law_set_uploaded(engine, millis, ids@, step@, tables, env);
}

/// Where the store is there and no step fails, `reset` forgets the sync ID and the
/// last sync time and empties the mirror. Every row is kept and marked as changed
/// once.
/// It is refused only if upgrading the engine's reference gave nothing.
pub proof fn law_live_reset<H: SyncHost>(
    engine: BridgedEngine<H>,
    step: Step<H>,
    tables: Tables,
    env: Environment<H>,
)
    requires
        call_ensures(BridgedEngine::<H>::reset, (&engine,), step),
    ensures
        match step {
            Step::Perform(Action::LockStore(store), _) => {
                &&& store == engine.store()
                &&& call_ensures(BridgedEngine::<H>::upgraded, (&engine,), Some(store))
            },
            Step::Done(Err(Failure::Storage(Error::DatabaseConnectionClosed))) => call_ensures(
                BridgedEngine::<H>::upgraded,
                (&engine,),
                None,
            ),
            _ => false,
        },
        step is Perform && env.smooth(7) ==> {
            let outcome = step@.run(World::at_rest(tables), env, 0);
            &&& outcome.result == Ok::<ResponseView<H>, Failure<H::Cause>>(ResponseView::Unit)
            &&& outcome.tables.meta == tables.meta.remove(LAST_SYNC_META_KEY@).remove(
                SYNC_ID_META_KEY@,
            )
            &&& outcome.tables.data.len() == tables.data.len()
            &&& forall|i: int|
                0 <= i < tables.data.len() ==> {
                    &&& (#[trigger] outcome.tables.data[i]).ext_id == tables.data[i].ext_id
                    &&& outcome.tables.data[i].data == tables.data[i].data
                    &&& outcome.tables.data[i].sync_change_counter == 1
                }
            &&& outcome.tables.mirror.len() == 0
            &&& outcome.tables.staged == tables.staged
        },
{
    laws::law_reset(engine, step@, tables, env);
}

/// Where the store is there and no step fails, `wipe` empties the tables of data, the
/// mirror and the meta table.
/// It is refused only if upgrading the engine's reference gave nothing.
pub proof fn law_live_wipe<H: SyncHost>(
    engine: BridgedEngine<H>,
    step: Step<H>,
    tables: Tables,
    env: Environment<H>,
)
    requires
        call_ensures(BridgedEngine::<H>::wipe, (&engine,), step),
    ensures
        match step {
            Step::Perform(Action::LockStore(store), _) => {
                &&& store == engine.store()
                &&& call_ensures(BridgedEngine::<H>::upgraded, (&engine,), Some(store))
            },
            Step::Done(Err(Failure::Storage(Error::DatabaseConnectionClosed))) => call_ensures(
                BridgedEngine::<H>::upgraded,
                (&engine,),
                None,
            ),
            _ => false,
        },
        step is Perform && env.smooth(5) ==> {
            let outcome = step@.run(World::at_rest(tables), env, 0);
            &&& outcome.result == Ok::<ResponseView<H>, Failure<H::Cause>>(ResponseView::Unit)
            &&& outcome.tables.data.len() == 0
            &&& outcome.tables.mirror.len() == 0
            &&& outcome.tables.meta == Map::<Seq<char>, MetaValue>::empty()
            &&& outcome.tables.staged == tables.staged
        },
{
    laws::law_wipe(engine, step@, tables, env);
}

/// `prepare_for_sync` asks for nothing and succeeds, whatever it is told.
pub proof fn law_prepare_for_sync_call<H: SyncHost>(
    engine: BridgedEngine<H>,
    client_data: &str,
    step: Step<H>,
)
    requires
        call_ensures(BridgedEngine::<H>::prepare_for_sync, (&engine, client_data), step),
    ensures
        step matches Step::Done(Ok(Response::Unit)),
{
}

/// On a store that is there, a last sync time that was set is the one that is read
/// next, whatever it is.
pub proof fn law_time_set_is_time_read<H: SyncHost>(
    engine: BridgedEngine<H>,
    millis: i64,
    set: Step<H>,
    get: Step<H>,
    databases: Map<Arc<H::Store>, Tables>,
    env: Environment<H>,
    later: Environment<H>,
)
    requires
        call_ensures(BridgedEngine::<H>::set_last_sync, (&engine, millis), set),
        call_ensures(BridgedEngine::<H>::last_sync, (&engine,), get),
        !call_ensures(BridgedEngine::<H>::upgraded, (&engine,), None),
        env.smooth(3),
        later.smooth(3),
    ensures
        ({
            let after = set@.operate(databases, env).databases;
            &&& after[engine.store()].meta[LAST_SYNC_META_KEY@] == MetaValue::Integer(millis)
            &&& get@.operate(after, later).result == Ok::<ResponseView<H>, Failure<H::Cause>>(
                ResponseView::Integer(millis),
            )
        }),
{
    law_live_set_last_sync(engine, millis, set, databases[engine.store()], env);
    laws::law_last_sync_reads_back(engine, engine, millis, set@, get@, databases, env, later);
}

/// On a store that is there, a sync ID that was ensured is answered, and is the one
/// that is read next, whatever it is and whatever sync ID was there before.
pub proof fn law_id_ensured_is_id_read<H: SyncHost>(
    engine: BridgedEngine<H>,
    sync_id: &str,
    ensure: Step<H>,
    get: Step<H>,
    databases: Map<Arc<H::Store>, Tables>,
    env: Environment<H>,
    later: Environment<H>,
)
    requires
        call_ensures(BridgedEngine::<H>::ensure_current_sync_id, (&engine, sync_id), ensure),
        call_ensures(BridgedEngine::<H>::sync_id, (&engine,), get),
        !call_ensures(BridgedEngine::<H>::upgraded, (&engine,), None),
        databases[engine.store()].meta.contains_key(SYNC_ID_META_KEY@)
            ==> databases[engine.store()].meta[SYNC_ID_META_KEY@] is Text,
        env.smooth(9),
        later.smooth(3),
    ensures
        ({
            let ensured = ensure@.operate(databases, env);
            &&& ensured.result == Ok::<ResponseView<H>, Failure<H::Cause>>(
                ResponseView::Text(sync_id@),
            )
            &&& get@.operate(ensured.databases, later).result == Ok::<
                ResponseView<H>,
                Failure<H::Cause>,
            >(ResponseView::OptionalText(Some(sync_id@)))
        }),
{
    let tables = databases[engine.store()];
    law_live_ensure_current_sync_id(engine, sync_id, ensure, tables, env);
    let after = ensure@.operate(databases, env).databases[engine.store()];
    law_live_sync_id(engine, get, after, later);
}

} // verus!
