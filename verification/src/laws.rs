//! What the operations of a bridged engine do to the tables, over whole runs.

use crate::action::{
    ActionView, ResponseView, LAST_SYNC_META_KEY, RESET_SQL, SYNC_ID_META_KEY, WIPE_SQL,
};
use crate::bridge;
use crate::engine;
use crate::engine::{BridgedEngine, Request, SyncEngine};
use crate::error::{Error, Failure};
use crate::host::SyncHost;
use crate::model::{Environment, MetaValue, Operated, Outcome, Tables, World};
use crate::reply;
use crate::session::{SessionView, StepView};
use std::sync::Arc;
use vstd::prelude::*;

verus! {

/// The outcome of a whole run that starts with this step.
pub open spec fn outcome<H: SyncHost>(
    step: StepView<H>,
    tables: Tables,
    env: Environment<H>,
) -> Outcome<H> {
    step.run(World::at_rest(tables), env, 0)
}

/// The keys and the batches are told apart by their texts.
proof fn lemma_texts_differ()
    ensures
        LAST_SYNC_META_KEY@ != SYNC_ID_META_KEY@,
        RESET_SQL@ != WIPE_SQL@,
{
    reveal_strlit("last_sync_time");
    reveal_strlit("sync_id");
    reveal_strlit("DELETE FROM storage_sync_mirror;
             UPDATE storage_sync_data SET sync_change_counter = 1;");
    reveal_strlit(
        "DELETE FROM storage_sync_data; DELETE FROM storage_sync_mirror; DELETE FROM meta;",
    );
    assert(LAST_SYNC_META_KEY@.len() != SYNC_ID_META_KEY@.len());
    assert(RESET_SQL@.len() != WIPE_SQL@.len());
}

/// The script behind a first step that did get hold of the store.
proof fn lemma_script<H: SyncHost>(
    engine: BridgedEngine<H>,
    request: Request<H>,
    step: StepView<H>,
) -> (session: SessionView<H>)
    requires
        engine.starts(request, step),
        request !is PrepareForSync,
        step is Perform,
    ensures
        request.script(session),
        step == session.open(engine.store()),
{
    choose|session: SessionView<H>|
        #[trigger] request.script(session) && step == session.open(engine.store())
}

/// Whether these actions can be done one after the other, and nothing becomes
/// durable before the last of them, nor by one that fails: writes go into a
/// transaction, or are a single statement that comes last.
spec fn contained<H: SyncHost>(
    actions: Seq<ActionView<H>>,
    world: World,
    env: Environment<H>,
) -> bool
    decreases actions.len(),
{
    actions.len() > 0 ==> {
        let next = world.performed(actions[0], env);
        &&& world.allows(actions[0])
        &&& world.failed(actions[0], env).durable == world.durable
        &&& actions.len() > 1 ==> next.durable == world.durable
        &&& contained(actions.drop_first(), next, env)
    }
}

/// Running a contained list of actions from the n-th step on: either all of them
/// succeed and the tail is next, or the run ends with what was durable before and
/// with the first failure.
proof fn lemma_run_actions<H: SyncHost>(
    session: SessionView<H>,
    world: World,
    env: Environment<H>,
    n: nat,
)
    requires
        contained(session.todo, world, env),
    ensures
        ({
            let outcome = session.next().run(world, env, n);
            let end = SessionView { todo: Seq::empty(), tail: session.tail };
            let m: nat = n + session.todo.len();
            if env.smooth_between(n, m) {
                outcome == end.next().run(world.performed_all(session.todo, env), env, m)
            } else {
                &&& outcome.result matches Err(failure) && env.fails_first(n, m, failure)
                &&& outcome.tables == world.durable
            }
        }),
    decreases session.todo.len(),
{
    let m: nat = n + session.todo.len();
    if session.todo.len() == 0 {
        assert(session.todo =~= Seq::empty());
    } else {
        let rest = SessionView { todo: session.todo.drop_first(), tail: session.tail };
        let action = session.todo[0];
        if (env.fails)(n) is None {
            let next = world.performed(action, env);
            assert(session.next().run(world, env, n) == rest.next().run(next, env, n + 1));
            assert(world.performed_all(session.todo, env) == next.performed_all(rest.todo, env));
            if rest.todo.len() == 0 {
                assert(rest.todo =~= Seq::empty());
                assert(env.smooth_between(n, m));
            } else {
                lemma_run_actions(rest, next, env, n + 1);
                let failure = rest.next().run(next, env, n + 1).result->Err_0;
                lemma_fails_first(env, n, n + 1, m, failure);
                lemma_smooth(env, n, n);
                assert(env.smooth_between(n, m) == env.smooth_between(n + 1, m)) by {
                    if env.smooth_between(n + 1, m) {
                        assert forall|k: nat| n <= k < m implies #[trigger] (env.fails)(
                            k,
                        ) is None by {
                            if k > n {
                                assert(n + 1 <= k);
                            }
                        }
                    }
                }
            }
        } else {
            assert(!env.smooth_between(n, m));
            reveal_with_fuel(StepView::run, 2);
            assert(env.smooth_between(n, n));
        }
    }
}

/// The database with its store locked and nothing else taken hold of.
spec fn locked(tables: Tables) -> World {
    World { locked: true, ..World::at_rest(tables) }
}

/// The same for a script that starts by locking the store.
proof fn lemma_run_script<H: SyncHost>(
    session: SessionView<H>,
    store: Arc<H::Store>,
    tables: Tables,
    env: Environment<H>,
)
    requires
        contained(session.todo, locked(tables), env),
    ensures
        ({
            let outcome = outcome(session.open(store), tables, env);
            let end = SessionView { todo: Seq::empty(), tail: session.tail };
            let m: nat = 1 + session.todo.len();
            if env.smooth(m) {
                outcome == end.next().run(
                    locked(tables).performed_all(session.todo, env),
                    env,
                    m,
                )
            } else {
                &&& outcome.result matches Err(failure) && env.fails_first(0, m, failure)
                &&& outcome.tables == tables
            }
        }),
{
    let lock = ActionView::LockStore(store);
    let whole = SessionView { todo: seq![lock] + session.todo, tail: session.tail };
    assert(whole.todo.drop_first() =~= session.todo);
    lemma_run_actions(whole, World::at_rest(tables), env, 0);
}

/// One more step goes smoothly if it does not fail.
proof fn lemma_smooth<H: SyncHost>(env: Environment<H>, n: nat, m: nat)
    requires
        n <= m,
    ensures
        env.smooth_between(n, m + 1) <==> env.smooth_between(n, m) && (env.fails)(m) is None,
{
}

/// A run goes smoothly if both its parts do.
proof fn lemma_smooth_join<H: SyncHost>(env: Environment<H>, n: nat, m: nat, l: nat)
    requires
        n <= m <= l,
    ensures
        env.smooth_between(n, l) <==> env.smooth_between(n, m) && env.smooth_between(m, l),
{
}

/// What fails first in a part of a run fails first in all of it, if nothing fails
/// before that part.
proof fn lemma_fails_first<H: SyncHost>(
    env: Environment<H>,
    n: nat,
    m: nat,
    l: nat,
    failure: Failure<H::Cause>,
)
    requires
        n <= m <= l,
    ensures
        env.fails_first(n, m, failure) ==> env.fails_first(n, l, failure),
        env.smooth_between(n, m) && env.fails_first(m, l, failure) ==> env.fails_first(
            n,
            l,
            failure,
        ),
{
    if env.smooth_between(n, m) && env.fails_first(m, l, failure) {
        let k = choose|k: nat|
            {
                &&& m <= k < l
                &&& #[trigger] (env.fails)(k) matches Some(cause) && failure
                    == Failure::<H::Cause>::Step(cause)
                &&& env.smooth_between(m, k)
            };
        lemma_smooth_join(env, n, m, k);
    }
}

/// Running what is left of an operation once its new sync ID is known, with the
/// transaction open or about to be.
proof fn lemma_adopt<H: SyncHost>(
    before: Seq<ActionView<H>>,
    id: Seq<char>,
    tables: Tables,
    world: World,
    env: Environment<H>,
    n: nat,
)
    requires
        ({
            ||| before == Seq::<ActionView<H>>::empty() && world.pending == Some(tables)
            ||| before == seq![ActionView::<H>::GetConnection, ActionView::BeginTransaction]
                && world.pending is None
        }),
        world.durable == tables,
        world.locked,
        world.connected,
    ensures
        ({
            let outcome = reply::adopt_session::<H>(before, id).next().run(world, env, n);
            if env.smooth_between(n, n + before.len() + 4) {
                outcome == Outcome::<H> {
                    tables: tables.adopt(id),
                    result: Ok(ResponseView::Text(id)),
                }
            } else {
                &&& outcome.result matches Err(failure) && env.fails_first(
                    n,
                    n + before.len() + 4,
                    failure,
                )
                &&& outcome.tables == tables
            }
        }),
{
    lemma_texts_differ();
    let session = reply::adopt_session::<H>(before, id);
    let adopt = seq![
        ActionView::<H>::ExecuteBatch(RESET_SQL@),
        ActionView::DeleteMeta(LAST_SYNC_META_KEY@),
        ActionView::PutMetaText(SYNC_ID_META_KEY@, id),
        ActionView::Commit,
    ];
    if before.len() == 0 {
        assert(session.todo =~= adopt);
    } else {
        assert(session.todo.drop_first().drop_first() =~= adopt);
    }
    reveal_with_fuel(contained, 7);
    reveal_with_fuel(World::performed_all, 7);
    lemma_run_actions(session, world, env, n);
}

/// How an operation fails that starts with this step and takes at most `n` steps:
/// it is refused because the store is gone, or it ends with the cause of the first
/// step to fail.
pub open spec fn fails_with<H: SyncHost>(
    step: StepView<H>,
    env: Environment<H>,
    n: nat,
    failure: Failure<H::Cause>,
) -> bool {
    if step is Perform {
        env.fails_first(0, n, failure)
    } else {
        failure == Failure::<H::Cause>::Storage(Error::DatabaseConnectionClosed)
    }
}

/// An operation locks the store that its engine was made for and no other. If
/// that store is gone, the answer is that the connection is closed, and nothing
/// is touched. Stores count as the same here if they have the same value.
pub proof fn law_own_store<H: SyncHost>(
    engine: BridgedEngine<H>,
    request: Request<H>,
    step: StepView<H>,
    databases: Map<Arc<H::Store>, Tables>,
    env: Environment<H>,
)
    requires
        engine.starts(request, step),
        request !is PrepareForSync,
    ensures
        match step {
            StepView::Perform(action, _) => action == ActionView::<H>::LockStore(engine.store()),
            _ => step.operate(databases, env) == (Operated::<H> {
                databases,
                result: Err(Failure::Storage(Error::DatabaseConnectionClosed)),
            }),
        },
        ({
            let after = step.operate(databases, env).databases;
            forall|store: Arc<H::Store>|
                store != engine.store() ==> {
                    &&& #[trigger] after.contains_key(store) == databases.contains_key(store)
                    &&& after[store] == databases[store]
                }
        }),
{
}

/// Whatever the script, a reference that upgrades to a store has the store locked,
/// and one that upgrades to nothing has the operation answered that the
/// connection is closed, with nothing touched.
pub proof fn law_gone_store<H: SyncHost>(
    session: SessionView<H>,
    upgraded: Option<Arc<H::Store>>,
    databases: Map<Arc<H::Store>, Tables>,
    env: Environment<H>,
)
    ensures
        match upgraded {
            Some(store) => session.open_or_closed(upgraded) == StepView::Perform(
                ActionView::<H>::LockStore(store),
                session,
            ),
            None => session.open_or_closed(upgraded).operate(databases, env) == (Operated::<H> {
                databases,
                result: Err(Failure::Storage(Error::DatabaseConnectionClosed)),
            }),
        },
{
}

/// Preparing for a sync asks for nothing and succeeds.
pub proof fn law_prepare_for_sync<H: SyncHost>(
    engine: BridgedEngine<H>,
    client_data: Seq<char>,
    step: StepView<H>,
    tables: Tables,
    env: Environment<H>,
)
    requires
        engine.starts(Request::PrepareForSync(client_data), step),
    ensures
        outcome(step, tables, env) == (Outcome::<H> { tables, result: Ok(ResponseView::Unit) }),
{
}

/// A run from the n-th step on that does not succeed answers the cause of the
/// first step that failed, or that a step could not be done, unless it was over
/// before it began.
pub proof fn law_first_failure<H: SyncHost>(
    step: StepView<H>,
    world: World,
    env: Environment<H>,
    n: nat,
)
    ensures
        match step.run(world, env, n).result {
            Ok(_) => true,
            Err(failure) => {
                ||| step == StepView::<H>::Done(Err(failure))
                ||| failure == Failure::<H::Cause>::Step(env.refused)
                ||| exists|k: nat|
                    {
                        &&& n <= k
                        &&& #[trigger] (env.fails)(k) matches Some(cause) && failure
                            == Failure::<H::Cause>::Step(cause)
                        &&& forall|j: nat| n <= j < k ==> #[trigger] (env.fails)(j) is None
                    }
            },
        },
    decreases step.size(),
{
    if step !is Done {
        let following = step.following(world, env, n);
        let m: nat = if step is NewGuid {
            n
        } else {
            n + 1
        };
        law_first_failure(following, step.world_after(world, env, n), env, m);
    }
}

/// The last sync time is read as it stands, or as zero if it was never set. The
/// read fails if a text is in its place. Nothing changes.
pub proof fn law_last_sync<H: SyncHost>(
    engine: BridgedEngine<H>,
    step: StepView<H>,
    tables: Tables,
    env: Environment<H>,
)
    requires
        engine.starts(Request::LastSync, step),
    ensures
        ({
            let outcome = outcome(step, tables, env);
            &&& outcome.result is Ok <==> step is Perform && env.smooth(3) && tables.holds_integer(
                LAST_SYNC_META_KEY@,
            )
            &&& match outcome.result {
                Ok(response) => {
                    &&& outcome.tables == tables
                    &&& response == ResponseView::<H>::Integer(
                        match tables.integer(LAST_SYNC_META_KEY@) {
                            Some(millis) => millis,
                            None => 0,
                        },
                    )
                },
                Err(failure) => {
                    &&& outcome.tables == tables
                    &&& if step is Perform && env.smooth(3) {
                        failure == Failure::<H::Cause>::Step(env.refused)
                    } else {
                        fails_with(step, env, 3, failure)
                    }
                },
            }
        }),
{
    if step is Perform {
        let session = lemma_script(engine, Request::LastSync, step);
        reveal_with_fuel(contained, 2);
        reveal_with_fuel(World::performed_all, 2);
        lemma_run_script(session, engine.store(), tables, env);
        lemma_smooth(env, 0, 2);
        reveal_with_fuel(StepView::run, 2);
        lemma_fails_first(env, 0, 2, 3, outcome(step, tables, env).result->Err_0);
    }
}

/// Setting the last sync time changes that entry and nothing else.
pub proof fn law_set_last_sync<H: SyncHost>(
    engine: BridgedEngine<H>,
    millis: i64,
    step: StepView<H>,
    tables: Tables,
    env: Environment<H>,
)
    requires
        engine.starts(Request::SetLastSync(millis), step),
    ensures
        ({
            let outcome = outcome(step, tables, env);
            &&& outcome.result is Ok <==> step is Perform && env.smooth(3)
            &&& match outcome.result {
                Ok(response) => {
                    &&& response is Unit
                    &&& outcome.tables == tables.put_meta(
                        LAST_SYNC_META_KEY@,
                        MetaValue::Integer(millis),
                    )
                },
                Err(failure) => {
                    &&& outcome.tables == tables
                    &&& fails_with(step, env, 3, failure)
                },
            }
        }),
{
    if step is Perform {
        let session = lemma_script(engine, Request::SetLastSync(millis), step);
        reveal_with_fuel(contained, 3);
        reveal_with_fuel(World::performed_all, 3);
        lemma_run_script(session, engine.store(), tables, env);
    }
}

/// The sync ID is read as it stands. The read fails if an integer is in its
/// place. Nothing changes.
pub proof fn law_sync_id<H: SyncHost>(
    engine: BridgedEngine<H>,
    step: StepView<H>,
    tables: Tables,
    env: Environment<H>,
)
    requires
        engine.starts(Request::SyncId, step),
    ensures
        ({
            let outcome = outcome(step, tables, env);
            &&& outcome.result is Ok <==> step is Perform && env.smooth(3) && tables.holds_text(
                SYNC_ID_META_KEY@,
            )
            &&& match outcome.result {
                Ok(response) => {
                    &&& outcome.tables == tables
                    &&& response == ResponseView::<H>::OptionalText(
                        tables.text(SYNC_ID_META_KEY@),
                    )
                },
                Err(failure) => {
                    &&& outcome.tables == tables
                    &&& if step is Perform && env.smooth(3) {
                        failure == Failure::<H::Cause>::Step(env.refused)
                    } else {
                        fails_with(step, env, 3, failure)
                    }
                },
            }
        }),
{
    if step is Perform {
        let session = lemma_script(engine, Request::SyncId, step);
        reveal_with_fuel(contained, 2);
        reveal_with_fuel(World::performed_all, 2);
        lemma_run_script(session, engine.store(), tables, env);
        lemma_smooth(env, 0, 2);
        reveal_with_fuel(StepView::run, 2);
        lemma_fails_first(env, 0, 2, 3, outcome(step, tables, env).result->Err_0);
    }
}

/// A new sync ID comes with a reset, both or, if a step fails, neither. The
/// answer is the identifier that was drawn.
pub proof fn law_reset_sync_id<H: SyncHost>(
    engine: BridgedEngine<H>,
    step: StepView<H>,
    tables: Tables,
    env: Environment<H>,
)
    requires
        engine.starts(Request::ResetSyncId, step),
    ensures
        ({
            let outcome = outcome(step, tables, env);
            &&& outcome.result is Ok <==> step is Perform && env.smooth(7)
            &&& match outcome.result {
                Ok(response) => {
                    &&& response == ResponseView::<H>::Text(env.guid)
                    &&& outcome.tables == tables.adopt(env.guid)
                },
                Err(failure) => {
                    &&& outcome.tables == tables
                    &&& fails_with(step, env, 7, failure)
                },
            }
        }),
{
    if step is Perform {
        let session = lemma_script(engine, Request::ResetSyncId, step);
        lemma_texts_differ();
        reveal_with_fuel(contained, 3);
        reveal_with_fuel(World::performed_all, 3);
        lemma_run_script(session, engine.store(), tables, env);
        let world = locked(tables).performed_all(session.todo, env);
        lemma_adopt(Seq::empty(), env.guid, tables, world, env, 3);
        lemma_smooth_join(env, 0, 3, 7);
        lemma_fails_first(env, 0, 3, 7, outcome(step, tables, env).result->Err_0);
    }
}

/// The wanted sync ID is answered. If it was the sync ID already, nothing
/// changes. If it was not, it comes with a reset, both or, if a step fails,
/// neither.
pub proof fn law_ensure_current_sync_id<H: SyncHost>(
    engine: BridgedEngine<H>,
    id: Seq<char>,
    step: StepView<H>,
    tables: Tables,
    env: Environment<H>,
)
    requires
        engine.starts(Request::EnsureCurrentSyncId(id), step),
    ensures
        ({
            let outcome = outcome(step, tables, env);
            &&& outcome.result is Ok <==> step is Perform && env.smooth(
                if tables.text(SYNC_ID_META_KEY@) == Some(id) {
                    3
                } else {
                    9
                },
            ) && tables.holds_text(SYNC_ID_META_KEY@)
            &&& match outcome.result {
                Ok(response) => {
                    &&& response == ResponseView::<H>::Text(id)
                    &&& outcome.tables == if tables.text(SYNC_ID_META_KEY@) == Some(id) {
                        tables
                    } else {
                        tables.adopt(id)
                    }
                },
                Err(failure) => {
                    &&& outcome.tables == tables
                    &&& if step is Perform && env.smooth(3) && !tables.holds_text(
                        SYNC_ID_META_KEY@,
                    ) {
                        failure == Failure::<H::Cause>::Step(env.refused)
                    } else {
                        fails_with(step, env, 9, failure)
                    }
                },
            }
        }),
{
    if step is Perform {
        let session = lemma_script(engine, Request::EnsureCurrentSyncId(id), step);
        lemma_texts_differ();
        reveal_with_fuel(contained, 2);
        reveal_with_fuel(World::performed_all, 2);
        lemma_run_script(session, engine.store(), tables, env);
        lemma_smooth(env, 0, 2);
        lemma_smooth_join(env, 0, 3, 9);
        reveal_with_fuel(StepView::run, 2);
        let opening = seq![ActionView::GetConnection, ActionView::BeginTransaction];
        let world = locked(tables).performed_all(session.todo, env);
        let failure = outcome(step, tables, env).result->Err_0;
        lemma_fails_first(env, 0, 2, 9, failure);
        lemma_fails_first(env, 0, 3, 9, failure);
        lemma_adopt(opening, id, tables, world, env, 3);
    }
}

/// The start and the end of a sync create the temporary tables, or empty them.
/// A failure there may leave it half done, since it is not in a transaction.
pub proof fn law_temp_tables<H: SyncHost>(
    engine: BridgedEngine<H>,
    request: Request<H>,
    step: StepView<H>,
    tables: Tables,
    env: Environment<H>,
)
    requires
        request is SyncStarted || request is SyncFinished,
        engine.starts(request, step),
    ensures
        ({
            let outcome = outcome(step, tables, env);
            &&& outcome.result is Ok <==> step is Perform && env.smooth(3)
            &&& match outcome.result {
                Ok(response) => {
                    &&& response is Unit
                    &&& outcome.tables == (env.effect)(
                        ActionView::CreateEmptySyncTempTables,
                        tables,
                    )
                    &&& env.empties_staged() ==> outcome.tables == tables.unstaged()
                },
                Err(failure) => {
                    &&& outcome.tables == if step is Perform && env.smooth(2) {
                        (env.partial)(ActionView::CreateEmptySyncTempTables, tables)
                    } else {
                        tables
                    }
                    &&& fails_with(step, env, 3, failure)
                },
            }
        }),
{
    if step is Perform {
        let session = lemma_script(engine, request, step);
        reveal_with_fuel(StepView::run, 5);
        lemma_smooth(env, 0, 0);
        lemma_smooth(env, 0, 1);
        lemma_smooth(env, 0, 2);
    }
}

/// A sync ends as it started: from the same tables, and if the store is there
/// for both or for neither, finishing gives what starting gives.
pub proof fn law_sync_finished_as_started<H: SyncHost>(
    engine: BridgedEngine<H>,
    started: StepView<H>,
    finished: StepView<H>,
    tables: Tables,
    env: Environment<H>,
)
    requires
        engine.starts(Request::SyncStarted, started),
        engine.starts(Request::SyncFinished, finished),
        started is Perform <==> finished is Perform,
    ensures
        outcome(finished, tables, env) == outcome(started, tables, env),
{
    if started is Perform {
        let first = lemma_script(engine, Request::SyncStarted, started);
        let second = lemma_script(engine, Request::SyncFinished, finished);
        assert(first == second);
    }
}

/// Where creating the temporary tables twice is as good as once, and so where it
/// just empties them, starting or finishing again changes nothing.
pub proof fn law_temp_tables_again<H: SyncHost>(
    engine: BridgedEngine<H>,
    request: Request<H>,
    step: StepView<H>,
    next_request: Request<H>,
    next_step: StepView<H>,
    tables: Tables,
    env: Environment<H>,
    later: Environment<H>,
)
    requires
        request is SyncStarted || request is SyncFinished,
        next_request is SyncStarted || next_request is SyncFinished,
        engine.starts(request, step),
        engine.starts(next_request, next_step),
        env.creates_once() || env.empties_staged(),
        later.effect == env.effect,
        outcome(step, tables, env).result is Ok,
    ensures
        ({
            let after = outcome(step, tables, env).tables;
            let again = outcome(next_step, after, later);
            again.result is Ok ==> again.tables == after
        }),
{
    law_temp_tables(engine, request, step, tables, env);
    law_temp_tables(engine, next_request, next_step, outcome(step, tables, env).tables, later);
}

/// The contents of all incoming records are staged, in order. If a step fails,
/// none of them stays staged, and nothing else changes either.
pub proof fn law_store_incoming<H: SyncHost>(
    engine: BridgedEngine<H>,
    bsos: Seq<H::IncomingBso>,
    step: StepView<H>,
    tables: Tables,
    env: Environment<H>,
)
    requires
        engine.starts(Request::StoreIncoming(bsos), step),
    ensures
        ({
            let outcome = outcome(step, tables, env);
            &&& outcome.result is Ok <==> step is Perform && env.smooth(6)
            &&& match outcome.result {
                Ok(response) => {
                    &&& response is Unit
                    &&& exists|contents: Seq<H::IncomingContent>|
                        {
                            &&& contents.len() == bsos.len()
                            &&& forall|i: int|
                                0 <= i < bsos.len() ==> call_ensures(
                                    H::into_content,
                                    (bsos[i],),
                                    #[trigger] contents[i],
                                )
                            &&& outcome.tables == #[trigger] (env.effect)(
                                ActionView::StageIncoming(contents),
                                tables,
                            )
                        }
                },
                Err(failure) => {
                    &&& outcome.tables == tables
                    &&& fails_with(step, env, 6, failure)
                },
            }
        }),
{
    if step is Perform {
        let session = lemma_script(engine, Request::StoreIncoming(bsos), step);
        assert(engine::stores::<H>(bsos, session));
        let contents = choose|contents: Seq<H::IncomingContent>|
            #[trigger] engine::contents_of::<H>(bsos, contents) && session
                == engine::store_session::<H>(contents);
        assert(contents.len() == bsos.len());
        reveal_with_fuel(contained, 6);
        reveal_with_fuel(World::performed_all, 6);
        lemma_run_script(session, engine.store(), tables, env);
    }
}

/// The tables after these actions are applied and the outgoing records are
/// staged.
pub open spec fn applied_with<H: SyncHost>(
    actions: Seq<(H::IncomingItem, H::IncomingAction)>,
    tables: Tables,
    env: Environment<H>,
) -> Tables {
    (env.effect)(
        ActionView::StageOutgoing,
        (env.effect)(ActionView::ApplyActions(actions), tables),
    )
}

/// The tables after all the incoming items are applied and the outgoing records
/// are staged.
pub open spec fn applied<H: SyncHost>(tables: Tables, env: Environment<H>) -> Tables {
    applied_with::<H>((env.plan)((env.incoming)(tables)), tables, env)
}

/// The incoming items are planned and applied and the outgoing records staged,
/// all of it. If a step fails before the commit, no item is applied and nothing
/// is staged for upload. The answer is what is then staged, and reading that may
/// fail after the commit.
pub proof fn law_apply<H: SyncHost>(
    engine: BridgedEngine<H>,
    step: StepView<H>,
    tables: Tables,
    env: Environment<H>,
)
    requires
        engine.starts(Request::Apply, step),
    ensures
        ({
            let outcome = outcome(step, tables, env);
            let actions = (env.plan)((env.incoming)(tables));
            let applied = (env.effect)(
                ActionView::StageOutgoing,
                (env.effect)(ActionView::ApplyActions(actions), tables),
            );
            &&& outcome.result is Ok <==> step is Perform && env.smooth(9)
            &&& match outcome.result {
                Ok(response) => {
                    &&& outcome.tables == applied
                    &&& response == ResponseView::<H>::Records((env.outgoing)(outcome.tables))
                },
                Err(failure) => {
                    &&& outcome.tables == if step is Perform && env.smooth(8) {
                        applied
                    } else {
                        tables
                    }
                    &&& fails_with(step, env, 9, failure)
                },
            }
        }),
{
    if step is Perform {
        let session = lemma_script(engine, Request::Apply, step);
        reveal_with_fuel(contained, 4);
        reveal_with_fuel(World::performed_all, 4);
        lemma_run_script(session, engine.store(), tables, env);
        let opened = locked(tables).performed_all(session.todo, env);
        let actions = (env.plan)((env.incoming)(tables));
        let rest = reply::apply_session::<H>(actions);
        lemma_run_actions(rest, opened, env, 5);
        lemma_smooth(env, 0, 4);
        lemma_smooth_join(env, 0, 5, 8);
        lemma_smooth(env, 0, 8);
        reveal_with_fuel(StepView::run, 2);
        let failure = outcome(step, tables, env).result->Err_0;
        lemma_fails_first(env, 0, 4, 9, failure);
        lemma_fails_first(env, 5, 8, 9, failure);
        lemma_fails_first(env, 0, 5, 9, failure);
    }
}

/// Every incoming item is applied, and none besides, in order, each with what was
/// planned for its own state.
pub proof fn law_apply_plans_each_item<H: SyncHost>(
    engine: BridgedEngine<H>,
    step: StepView<H>,
    tables: Tables,
    env: Environment<H>,
)
    requires
        engine.starts(Request::Apply, step),
        env.plans_items(tables),
    ensures
        outcome(step, tables, env).result is Ok ==> exists|
            actions: Seq<(H::IncomingItem, H::IncomingAction)>,
        |
            {
                let incoming = (env.incoming)(tables);
                &&& actions.len() == incoming.len()
                &&& forall|i: int|
                    0 <= i < incoming.len() ==> {
                        &&& (#[trigger] actions[i]).0 == incoming[i].0
                        &&& call_ensures(H::plan_incoming, (incoming[i].1,), actions[i].1)
                    }
                &&& outcome(step, tables, env).tables == (env.effect)(
                    ActionView::StageOutgoing,
                    #[trigger] (env.effect)(ActionView::ApplyActions(actions), tables),
                )
            },
{
    law_apply(engine, step, tables, env);
    let actions = (env.plan)((env.incoming)(tables));
    assert(reply::plans_of::<H>((env.incoming)(tables), actions));
    assert(actions.len() == (env.incoming)(tables).len());
}

/// The records that a run ended with.
pub open spec fn records_of<H: SyncHost>(
    result: Result<ResponseView<H>, Failure<H::Cause>>,
) -> Result<Seq<H::OutgoingBso>, Failure<H::Cause>> {
    match result {
        Ok(response) => Ok(response->Records_0),
        Err(failure) => Err(failure),
    }
}

/// A run of `apply` that succeeds ends with records, the ones that are staged,
/// and the bridge answers them as texts, or with the first that has none. A run
/// that fails is answered with its failure.
pub proof fn law_apply_answers_texts<H: SyncHost>(
    engine: BridgedEngine<H>,
    step: StepView<H>,
    tables: Tables,
    env: Environment<H>,
    answer: Result<Seq<String>, Failure<H::Cause>>,
)
    requires
        engine.starts(Request::Apply, step),
        bridge::texts_of::<H>(records_of::<H>(outcome(step, tables, env).result), answer),
    ensures
        match outcome(step, tables, env).result {
            Ok(response) => {
                let records = (env.outgoing)(applied::<H>(tables, env));
                &&& response == ResponseView::<H>::Records(records)
                &&& match answer {
                    Ok(texts) => bridge::serializes::<H>(records, Ok(texts)),
                    Err(failure) => failure matches Failure::Step(cause) && bridge::serializes::<H>(
                        records,
                        Err(cause),
                    ),
                }
            },
            Err(failure) => answer == Err::<Seq<String>, Failure<H::Cause>>(failure),
        },
{
    law_apply(engine, step, tables, env);
}

/// The uploaded records are recorded, or, if a step fails, none is. The time
/// that the server gives is not used.
pub proof fn law_set_uploaded<H: SyncHost>(
    engine: BridgedEngine<H>,
    millis: i64,
    ids: Seq<H::Guid>,
    step: StepView<H>,
    tables: Tables,
    env: Environment<H>,
)
    requires
        engine.starts(Request::SetUploaded(millis, ids), step),
    ensures
        ({
            let outcome = outcome(step, tables, env);
            &&& outcome.result is Ok <==> step is Perform && env.smooth(6)
            &&& match outcome.result {
                Ok(response) => {
                    &&& response is Unit
                    &&& outcome.tables == (env.effect)(ActionView::RecordUploaded(ids), tables)
                },
                Err(failure) => {
                    &&& outcome.tables == tables
                    &&& fails_with(step, env, 6, failure)
                },
            }
        }),
{
    if step is Perform {
        let session = lemma_script(engine, Request::SetUploaded(millis, ids), step);
        reveal_with_fuel(contained, 6);
        reveal_with_fuel(World::performed_all, 6);
        lemma_run_script(session, engine.store(), tables, env);
    }
}

/// The time that the server gives plays no part in recording uploads. In
/// particular it does not become the last sync time.
pub proof fn law_server_time_is_unused<H: SyncHost>(
    engine: BridgedEngine<H>,
    millis: i64,
    other_millis: i64,
    ids: Seq<H::Guid>,
    step: StepView<H>,
    other_step: StepView<H>,
    tables: Tables,
    env: Environment<H>,
)
    requires
        engine.starts(Request::SetUploaded(millis, ids), step),
        engine.starts(Request::SetUploaded(other_millis, ids), other_step),
        step is Perform <==> other_step is Perform,
    ensures
        outcome(step, tables, env) == outcome(other_step, tables, env),
        env.keeps_meta() ==> outcome(step, tables, env).tables.integer(LAST_SYNC_META_KEY@)
            == tables.integer(LAST_SYNC_META_KEY@),
{
    law_set_uploaded(engine, millis, ids, step, tables, env);
    if step is Perform {
        let session = lemma_script(engine, Request::SetUploaded(millis, ids), step);
        let other = lemma_script(engine, Request::SetUploaded(other_millis, ids), other_step);
        assert(session == other);
    }
}

/// The actions that all resets have in common hold no commit. In a transaction,
/// however far they get and whether or not one fails, what is durable stays as it
/// was, and once they are done the transaction holds the reset tables.
pub proof fn law_do_reset_stays_pending<H: SyncHost>(
    world: World,
    env: Environment<H>,
    done: int,
)
    requires
        world.pending is Some,
        0 <= done <= reply::do_reset_actions::<H>().len(),
    ensures
        ({
            let actions = reply::do_reset_actions::<H>();
            let after = world.performed_all(actions.take(done), env);
            &&& !actions.contains(ActionView::Commit)
            &&& after.durable == world.durable
            &&& done < actions.len() ==> after.failed(actions[done], env).durable == world.durable
            &&& done == actions.len() ==> after.pending == Some(world.tables().reset())
        }),
{
    lemma_texts_differ();
    reveal_with_fuel(World::performed_all, 3);
    let actions = reply::do_reset_actions::<H>();
    assert(actions.take(0) =~= Seq::empty());
    assert(actions.take(1) =~= seq![actions[0]]);
    assert(actions.take(2) =~= actions);
}

/// An explicit reset resets the sync state and forgets the sync ID, all of it
/// or, if a step fails, none of it.
pub proof fn law_reset<H: SyncHost>(
    engine: BridgedEngine<H>,
    step: StepView<H>,
    tables: Tables,
    env: Environment<H>,
)
    requires
        engine.starts(Request::Reset, step),
    ensures
        ({
            let outcome = outcome(step, tables, env);
            &&& outcome.result is Ok <==> step is Perform && env.smooth(7)
            &&& match outcome.result {
                Ok(response) => {
                    &&& response is Unit
                    &&& outcome.tables == tables.reset().delete_meta(SYNC_ID_META_KEY@)
                },
                Err(failure) => {
                    &&& outcome.tables == tables
                    &&& fails_with(step, env, 7, failure)
                },
            }
        }),
{
    if step is Perform {
        let session = lemma_script(engine, Request::Reset, step);
        assert(session.todo =~= seq![
            ActionView::GetConnection,
            ActionView::BeginTransaction,
            ActionView::ExecuteBatch(RESET_SQL@),
            ActionView::DeleteMeta(LAST_SYNC_META_KEY@),
            ActionView::DeleteMeta(SYNC_ID_META_KEY@),
            ActionView::Commit,
        ]);
        lemma_texts_differ();
        reveal_with_fuel(contained, 7);
        reveal_with_fuel(World::performed_all, 7);
        lemma_run_script(session, engine.store(), tables, env);
    }
}

/// A wipe empties every table but the temporary ones or, if a step fails, none.
pub proof fn law_wipe<H: SyncHost>(
    engine: BridgedEngine<H>,
    step: StepView<H>,
    tables: Tables,
    env: Environment<H>,
)
    requires
        engine.starts(Request::Wipe, step),
    ensures
        ({
            let outcome = outcome(step, tables, env);
            &&& outcome.result is Ok <==> step is Perform && env.smooth(5)
            &&& match outcome.result {
                Ok(response) => {
                    &&& response is Unit
                    &&& outcome.tables == tables.wiped()
                },
                Err(failure) => {
                    &&& outcome.tables == tables
                    &&& fails_with(step, env, 5, failure)
                },
            }
        }),
{
    if step is Perform {
        let session = lemma_script(engine, Request::Wipe, step);
        lemma_texts_differ();
        reveal_with_fuel(contained, 5);
        reveal_with_fuel(World::performed_all, 5);
        lemma_run_script(session, engine.store(), tables, env);
    }
}

/// A reset keeps every row and its data, and marks it as changed. It empties the
/// mirror and forgets the last sync time, and of the meta table that alone: only
/// an explicit reset forgets the sync ID. What is staged stays, as it does in a
/// wipe.
pub proof fn law_reset_keeps_data(tables: Tables)
    ensures
        tables.reset().staged == tables.staged,
        tables.wiped().staged == tables.staged,
        tables.reset().data.len() == tables.data.len(),
        forall|i: int|
            0 <= i < tables.data.len() ==> {
                &&& (#[trigger] tables.reset().data[i]).ext_id == tables.data[i].ext_id
                &&& tables.reset().data[i].data == tables.data[i].data
                &&& tables.reset().data[i].sync_change_counter == 1
            },
        tables.reset().mirror.len() == 0,
        tables.reset().integer(LAST_SYNC_META_KEY@) is None,
        tables.reset().text(SYNC_ID_META_KEY@) == tables.text(SYNC_ID_META_KEY@),
        forall|key: Seq<char>|
            key != LAST_SYNC_META_KEY@ ==> {
                &&& #[trigger] tables.reset().meta.contains_key(key) == tables.meta.contains_key(
                    key,
                )
                &&& tables.reset().meta[key] == tables.meta[key]
            },
{
    lemma_texts_differ();
}

/// A wipe empties the tables of data, the mirror and the meta table.
pub proof fn law_wipe_empties(tables: Tables)
    ensures
        tables.wiped().data.len() == 0,
        tables.wiped().mirror.len() == 0,
        forall|key: Seq<char>| !#[trigger] tables.wiped().meta.contains_key(key),
{
}

/// A reset under a sync ID is a reset that also leaves that sync ID, and changes
/// no other entry of the meta table.
pub proof fn law_adopt_resets(tables: Tables, id: Seq<char>)
    ensures
        tables.adopt(id).data == tables.reset().data,
        tables.adopt(id).mirror == tables.reset().mirror,
        tables.adopt(id).staged == tables.reset().staged,
        tables.adopt(id).meta.contains_key(SYNC_ID_META_KEY@),
        tables.adopt(id).meta[SYNC_ID_META_KEY@] == MetaValue::Text(id),
        forall|key: Seq<char>|
            key != SYNC_ID_META_KEY@ ==> {
                &&& #[trigger] tables.adopt(id).meta.contains_key(key)
                    == tables.reset().meta.contains_key(key)
                &&& tables.adopt(id).meta[key] == tables.reset().meta[key]
            },
{
}

/// Emptying the temporary tables leaves nothing staged, and everything else as it
/// was.
pub proof fn law_unstaged_empties(tables: Tables)
    ensures
        tables.unstaged().staged.incoming.len() == 0,
        tables.unstaged().staged.outgoing.len() == 0,
        tables.unstaged().data == tables.data,
        tables.unstaged().mirror == tables.mirror,
        tables.unstaged().meta == tables.meta,
{
}

/// An entry of the meta table changes by being written or deleted, and no other
/// changes with it. It reads as what was written, if it is read as what it is.
pub proof fn law_meta_entries(tables: Tables, key: Seq<char>, value: MetaValue)
    ensures
        ({
            let put = tables.put_meta(key, value);
            let deleted = tables.delete_meta(key);
            &&& put.data == tables.data && put.mirror == tables.mirror && put.staged
                == tables.staged
            &&& deleted.data == tables.data && deleted.mirror == tables.mirror && deleted.staged
                == tables.staged
            &&& forall|other: Seq<char>|
                other != key ==> {
                    &&& #[trigger] put.meta.contains_key(other) == tables.meta.contains_key(other)
                    &&& put.meta[other] == tables.meta[other]
                }
            &&& forall|other: Seq<char>|
                other != key ==> {
                    &&& #[trigger] deleted.meta.contains_key(other) == tables.meta.contains_key(
                        other,
                    )
                    &&& deleted.meta[other] == tables.meta[other]
                }
            &&& put.meta.contains_key(key) && put.meta[key] == value
            &&& !deleted.meta.contains_key(key)
            &&& deleted.holds_integer(key) && deleted.integer(key) is None
            &&& deleted.holds_text(key) && deleted.text(key) is None
            &&& match value {
                MetaValue::Integer(integer) => {
                    &&& put.holds_integer(key) && put.integer(key) == Some(integer)
                    &&& !put.holds_text(key)
                },
                MetaValue::Text(text) => {
                    &&& put.holds_text(key) && put.text(key) == Some(text)
                    &&& !put.holds_integer(key)
                },
            }
        }),
{
}

/// An operation that fails leaves the tables as they were. This holds of all
/// operations whose steps either are single statements or are in a transaction,
/// and of none that still reads after its commit.
pub proof fn law_all_or_nothing<H: SyncHost>(
    engine: BridgedEngine<H>,
    request: Request<H>,
    step: StepView<H>,
    tables: Tables,
    env: Environment<H>,
)
    requires
        engine.starts(request, step),
        request !is SyncStarted,
        request !is SyncFinished,
        request !is Apply,
    ensures
        outcome(step, tables, env).result is Err ==> outcome(step, tables, env).tables == tables,
{
    match request {
        Request::LastSync => law_last_sync(engine, step, tables, env),
        Request::SetLastSync(millis) => law_set_last_sync(engine, millis, step, tables, env),
        Request::SyncId => law_sync_id(engine, step, tables, env),
        Request::ResetSyncId => law_reset_sync_id(engine, step, tables, env),
        Request::EnsureCurrentSyncId(id) => law_ensure_current_sync_id(
            engine,
            id,
            step,
            tables,
            env,
        ),
        Request::StoreIncoming(bsos) => law_store_incoming(engine, bsos, step, tables, env),
        Request::SetUploaded(millis, ids) => law_set_uploaded(
            engine,
            millis,
            ids,
            step,
            tables,
            env,
        ),
        Request::Reset => law_reset(engine, step, tables, env),
        Request::Wipe => law_wipe(engine, step, tables, env),
        _ => {},
    }
}

/// The operations that write the meta table keep its entries well typed.
pub proof fn law_well_typed<H: SyncHost>(
    engine: BridgedEngine<H>,
    request: Request<H>,
    step: StepView<H>,
    tables: Tables,
    env: Environment<H>,
)
    requires
        engine.starts(request, step),
        tables.well_typed(),
        request is LastSync || request is SetLastSync || request is SyncId || request is ResetSyncId
            || request is EnsureCurrentSyncId || request is PrepareForSync || request is Reset
            || request is Wipe,
    ensures
        outcome(step, tables, env).tables.well_typed(),
{
    lemma_texts_differ();
    match request {
        Request::LastSync => law_last_sync(engine, step, tables, env),
        Request::SetLastSync(millis) => law_set_last_sync(engine, millis, step, tables, env),
        Request::SyncId => law_sync_id(engine, step, tables, env),
        Request::ResetSyncId => law_reset_sync_id(engine, step, tables, env),
        Request::EnsureCurrentSyncId(id) => law_ensure_current_sync_id(
            engine,
            id,
            step,
            tables,
            env,
        ),
        Request::Reset => law_reset(engine, step, tables, env),
        Request::Wipe => law_wipe(engine, step, tables, env),
        _ => {},
    }
}

/// An operation leaves on its engine's store what a run on that store leaves, and
/// gives the same answer.
proof fn lemma_operate<H: SyncHost>(
    engine: BridgedEngine<H>,
    request: Request<H>,
    step: StepView<H>,
    databases: Map<Arc<H::Store>, Tables>,
    env: Environment<H>,
)
    requires
        engine.starts(request, step),
    ensures
        ({
            let operated = step.operate(databases, env);
            let outcome = outcome(step, databases[engine.store()], env);
            &&& operated.databases[engine.store()] == outcome.tables
            &&& operated.result == outcome.result
        }),
{
}

/// A last sync time that was set is what any engine of the same store reads next.
pub proof fn law_last_sync_reads_back<H: SyncHost>(
    writer: BridgedEngine<H>,
    reader: BridgedEngine<H>,
    millis: i64,
    set: StepView<H>,
    get: StepView<H>,
    databases: Map<Arc<H::Store>, Tables>,
    env: Environment<H>,
    later: Environment<H>,
)
    requires
        reader.store() == writer.store(),
        writer.starts(Request::SetLastSync(millis), set),
        reader.starts(Request::LastSync, get),
        set.operate(databases, env).result is Ok,
    ensures
        ({
            let read = get.operate(set.operate(databases, env).databases, later).result;
            &&& read is Ok <==> get is Perform && later.smooth(3)
            &&& read matches Ok(response) ==> response == ResponseView::<H>::Integer(millis)
        }),
{
    lemma_texts_differ();
    let after = set.operate(databases, env).databases;
    lemma_operate(writer, Request::SetLastSync(millis), set, databases, env);
    lemma_operate(reader, Request::LastSync, get, after, later);
    law_set_last_sync(writer, millis, set, databases[writer.store()], env);
    law_last_sync(reader, get, after[reader.store()], later);
}

/// After a reset under a new sync ID, any engine of the same store reads the sync
/// ID that was answered, and the last sync time as never set.
pub proof fn law_reset_sync_id_reads_back<H: SyncHost>(
    writer: BridgedEngine<H>,
    reader: BridgedEngine<H>,
    reset: StepView<H>,
    sync_id: StepView<H>,
    last_sync: StepView<H>,
    databases: Map<Arc<H::Store>, Tables>,
    env: Environment<H>,
    later: Environment<H>,
)
    requires
        reader.store() == writer.store(),
        writer.starts(Request::ResetSyncId, reset),
        reader.starts(Request::SyncId, sync_id),
        reader.starts(Request::LastSync, last_sync),
        reset.operate(databases, env).result is Ok,
    ensures
        ({
            let operated = reset.operate(databases, env);
            let answer = operated.result->Ok_0->Text_0;
            let id = sync_id.operate(operated.databases, later).result;
            let time = last_sync.operate(operated.databases, later).result;
            &&& id is Ok <==> sync_id is Perform && later.smooth(3)
            &&& id matches Ok(response) ==> response == ResponseView::<H>::OptionalText(
                Some(answer),
            )
            &&& time is Ok <==> last_sync is Perform && later.smooth(3)
            &&& time matches Ok(response) ==> response == ResponseView::<H>::Integer(0)
        }),
{
    lemma_texts_differ();
    let after = reset.operate(databases, env).databases;
    lemma_operate(writer, Request::ResetSyncId, reset, databases, env);
    lemma_operate(reader, Request::SyncId, sync_id, after, later);
    lemma_operate(reader, Request::LastSync, last_sync, after, later);
    law_reset_sync_id(writer, reset, databases[writer.store()], env);
    law_sync_id(reader, sync_id, after[reader.store()], later);
    law_last_sync(reader, last_sync, after[reader.store()], later);
}

/// After an explicit reset, or a wipe, any engine of the same store finds no sync
/// ID, and reads the last sync time as never set.
pub proof fn law_reset_and_wipe_forget<H: SyncHost>(
    writer: BridgedEngine<H>,
    reader: BridgedEngine<H>,
    request: Request<H>,
    forget: StepView<H>,
    sync_id: StepView<H>,
    last_sync: StepView<H>,
    databases: Map<Arc<H::Store>, Tables>,
    env: Environment<H>,
    later: Environment<H>,
)
    requires
        reader.store() == writer.store(),
        request is Reset || request is Wipe,
        writer.starts(request, forget),
        reader.starts(Request::SyncId, sync_id),
        reader.starts(Request::LastSync, last_sync),
        forget.operate(databases, env).result is Ok,
    ensures
        ({
            let after = forget.operate(databases, env).databases;
            let id = sync_id.operate(after, later).result;
            let time = last_sync.operate(after, later).result;
            &&& id is Ok <==> sync_id is Perform && later.smooth(3)
            &&& id matches Ok(response) ==> response == ResponseView::<H>::OptionalText(None)
            &&& time is Ok <==> last_sync is Perform && later.smooth(3)
            &&& time matches Ok(response) ==> response == ResponseView::<H>::Integer(0)
        }),
{
    lemma_texts_differ();
    let tables = databases[writer.store()];
    let after = forget.operate(databases, env).databases;
    lemma_operate(writer, request, forget, databases, env);
    lemma_operate(reader, Request::SyncId, sync_id, after, later);
    lemma_operate(reader, Request::LastSync, last_sync, after, later);
    if request is Reset {
        law_reset(writer, forget, tables, env);
    } else {
        law_wipe(writer, forget, tables, env);
    }
    law_sync_id(reader, sync_id, after[reader.store()], later);
    law_last_sync(reader, last_sync, after[reader.store()], later);
}

impl<H: SyncHost> Request<H> {
    /// The operations that are not there to change the sync ID.
    pub open spec fn leaves_sync_id(self) -> bool {
        match self {
            Request::LastSync
            | Request::SetLastSync(_)
            | Request::SyncId
            | Request::PrepareForSync(_)
            | Request::SyncStarted
            | Request::StoreIncoming(_)
            | Request::Apply
            | Request::SetUploaded(_, _)
            | Request::SyncFinished => true,
            Request::ResetSyncId
            | Request::EnsureCurrentSyncId(_)
            | Request::Reset
            | Request::Wipe => false,
        }
    }
}

/// Whether the sync ID, or that there is none, is the same after as before.
pub open spec fn keeps_sync_id(before: Tables, after: Tables) -> bool {
    &&& after.meta.contains_key(SYNC_ID_META_KEY@) == before.meta.contains_key(SYNC_ID_META_KEY@)
    &&& after.meta[SYNC_ID_META_KEY@] == before.meta[SYNC_ID_META_KEY@]
}

/// Only a reset, a wipe, and a new or ensured sync ID change the sync ID. Every
/// other operation keeps it, whether it succeeds or fails, where working on
/// records leaves the meta table alone.
pub proof fn law_sync_id_is_kept<H: SyncHost>(
    engine: BridgedEngine<H>,
    request: Request<H>,
    step: StepView<H>,
    tables: Tables,
    env: Environment<H>,
)
    requires
        engine.starts(request, step),
        request.leaves_sync_id(),
        env.keeps_meta(),
    ensures
        keeps_sync_id(tables, outcome(step, tables, env).tables),
{
    lemma_texts_differ();
    match request {
        Request::LastSync => law_last_sync(engine, step, tables, env),
        Request::SetLastSync(millis) => law_set_last_sync(engine, millis, step, tables, env),
        Request::SyncId => law_sync_id(engine, step, tables, env),
        Request::SyncStarted | Request::SyncFinished => law_temp_tables(
            engine,
            request,
            step,
            tables,
            env,
        ),
        Request::StoreIncoming(bsos) => law_store_incoming(engine, bsos, step, tables, env),
        Request::Apply => law_apply(engine, step, tables, env),
        Request::SetUploaded(millis, ids) => law_set_uploaded(
            engine,
            millis,
            ids,
            step,
            tables,
            env,
        ),
        _ => {},
    }
}

/// An operation that an engine was asked for.
#[verifier::reject_recursive_types(H)]
pub struct Call<H: SyncHost> {
    pub engine: BridgedEngine<H>,
    pub request: Request<H>,
    pub step: StepView<H>,
    pub env: Environment<H>,
}

impl<H: SyncHost> Call<H> {
    /// Whether this is an operation on `store` that leaves the sync ID alone.
    pub open spec fn leaves_sync_id_of(self, store: Arc<H::Store>) -> bool {
        &&& self.engine.store() == store
        &&& self.engine.starts(self.request, self.step)
        &&& self.request.leaves_sync_id()
        &&& self.env.keeps_meta()
    }
}

/// The tables of every store after these calls, in order.
pub open spec fn operate_all<H: SyncHost>(
    calls: Seq<Call<H>>,
    databases: Map<Arc<H::Store>, Tables>,
) -> Map<Arc<H::Store>, Tables>
    decreases calls.len(),
{
    if calls.len() == 0 {
        databases
    } else {
        let before = operate_all(calls.drop_last(), databases);
        calls.last().step.operate(before, calls.last().env).databases
    }
}

/// The same for any number of such calls.
proof fn lemma_calls_keep_sync_id<H: SyncHost>(
    store: Arc<H::Store>,
    calls: Seq<Call<H>>,
    databases: Map<Arc<H::Store>, Tables>,
)
    requires
        forall|i: int| 0 <= i < calls.len() ==> (#[trigger] calls[i]).leaves_sync_id_of(store),
    ensures
        keeps_sync_id(databases[store], operate_all(calls, databases)[store]),
    decreases calls.len(),
{
    if calls.len() > 0 {
        let call = calls.last();
        let earlier = calls.drop_last();
        let before = operate_all(earlier, databases);
        assert(calls[calls.len() - 1].leaves_sync_id_of(store));
        assert forall|i: int| 0 <= i < earlier.len() implies (
        #[trigger] earlier[i]).leaves_sync_id_of(store) by {
            assert(earlier[i] == calls[i]);
        }
        lemma_calls_keep_sync_id(store, earlier, databases);
        lemma_operate(call.engine, call.request, call.step, before, call.env);
        law_sync_id_is_kept(call.engine, call.request, call.step, before[store], call.env);
    }
}

/// A sync ID that was read is read again after any number of calls that are not
/// there to change it, succeeding or failing, of any engines of the store.
pub proof fn law_sync_id_reads_the_same<H: SyncHost>(
    engine: BridgedEngine<H>,
    first: StepView<H>,
    calls: Seq<Call<H>>,
    second: StepView<H>,
    databases: Map<Arc<H::Store>, Tables>,
    env: Environment<H>,
    later: Environment<H>,
)
    requires
        engine.starts(Request::SyncId, first),
        engine.starts(Request::SyncId, second),
        forall|i: int|
            0 <= i < calls.len() ==> (#[trigger] calls[i]).leaves_sync_id_of(engine.store()),
        first.operate(databases, env).result is Ok,
    ensures
        ({
            let read = first.operate(databases, env);
            let after = operate_all(calls, read.databases);
            let again = second.operate(after, later).result;
            &&& again is Ok <==> second is Perform && later.smooth(3)
            &&& again is Ok ==> again == read.result
        }),
{
    let between = first.operate(databases, env).databases;
    let after = operate_all(calls, between);
    lemma_operate(engine, Request::SyncId, first, databases, env);
    law_sync_id(engine, first, databases[engine.store()], env);
    lemma_calls_keep_sync_id(engine.store(), calls, between);
    lemma_operate(engine, Request::SyncId, second, after, later);
    law_sync_id(engine, second, after[engine.store()], later);
}

/// Once a sync ID is ensured, it stays through any number of calls that are not
/// there to change it: it is what is read, and ensuring it again answers it and
/// changes nothing.
pub proof fn law_ensured_sync_id_stays<H: SyncHost>(
    engine: BridgedEngine<H>,
    id: Seq<char>,
    ensure: StepView<H>,
    calls: Seq<Call<H>>,
    sync_id: StepView<H>,
    again: StepView<H>,
    databases: Map<Arc<H::Store>, Tables>,
    env: Environment<H>,
    later: Environment<H>,
)
    requires
        engine.starts(Request::EnsureCurrentSyncId(id), ensure),
        engine.starts(Request::SyncId, sync_id),
        engine.starts(Request::EnsureCurrentSyncId(id), again),
        forall|i: int|
            0 <= i < calls.len() ==> (#[trigger] calls[i]).leaves_sync_id_of(engine.store()),
        ensure.operate(databases, env).result is Ok,
    ensures
        ({
            let after = operate_all(calls, ensure.operate(databases, env).databases);
            let ensured = again.operate(after, later);
            let read = sync_id.operate(after, later).result;
            &&& read is Ok <==> sync_id is Perform && later.smooth(3)
            &&& read matches Ok(response) ==> response == ResponseView::<H>::OptionalText(Some(id))
            &&& ensured.result is Ok <==> again is Perform && later.smooth(3)
            &&& ensured.result matches Ok(response) ==> response == ResponseView::<H>::Text(id)
            &&& ensured.databases[engine.store()] == after[engine.store()]
        }),
{
    lemma_texts_differ();
    let store = engine.store();
    let between = ensure.operate(databases, env).databases;
    let after = operate_all(calls, between);
    lemma_operate(engine, Request::EnsureCurrentSyncId(id), ensure, databases, env);
    law_ensure_current_sync_id(engine, id, ensure, databases[store], env);
    lemma_calls_keep_sync_id(store, calls, between);
    lemma_operate(engine, Request::SyncId, sync_id, after, later);
    law_sync_id(engine, sync_id, after[store], later);
    lemma_operate(engine, Request::EnsureCurrentSyncId(id), again, after, later);
    law_ensure_current_sync_id(engine, id, again, after[store], later);
}

} // verus!
