//! What sessions, replies and constructors do with what they are given, stated of
//! the calls themselves.

use crate::action;
use crate::action::{
    Action, ActionView, Response, ResponseView, LAST_SYNC_META_KEY, RESET_SQL, SYNC_ID_META_KEY,
    WIPE_SQL,
};
use crate::engine::{BridgedEngine, Request};
use crate::error::{Error, Failure};
use crate::host::SyncHost;
use crate::reply::{
    GuidReply, IncomingReply, LastSyncReply, OutgoingReply, SyncIdReply, SyncIdReplyView,
};
use crate::session::{Session, SessionView, Step, StepView, Tail, TailView};
use std::sync::Arc;
use vstd::prelude::*;

verus! {

/// The meta table's keys, and the statements of a reset and of a wipe.
pub proof fn law_names()
    ensures
        LAST_SYNC_META_KEY@ == "last_sync_time"@,
        SYNC_ID_META_KEY@ == "sync_id"@,
        RESET_SQL@ == "DELETE FROM storage_sync_mirror;
             UPDATE storage_sync_data SET sync_change_counter = 1;"@,
        WIPE_SQL@
            == "DELETE FROM storage_sync_data; DELETE FROM storage_sync_mirror; DELETE FROM meta;"@,
{
}

/// The view of an action keeps its kind and all that it holds.
pub proof fn law_action_view<H: SyncHost>(action: Action<H>)
    ensures
        match (action, action@) {
            (Action::LockStore(store), ActionView::LockStore(seen)) => seen == store,
            (Action::GetConnection, ActionView::GetConnection) => true,
            (Action::BeginInterruptScope, ActionView::BeginInterruptScope) => true,
            (Action::BeginTransaction, ActionView::BeginTransaction) => true,
            (Action::ExecuteBatch(sql), ActionView::ExecuteBatch(seen)) => seen == sql@,
            (Action::PutMetaInteger(key, value), ActionView::PutMetaInteger(name, seen)) => name
                == key@ && seen == value,
            (Action::PutMetaText(key, value), ActionView::PutMetaText(name, seen)) => name == key@
                && seen == value@,
            (Action::DeleteMeta(key), ActionView::DeleteMeta(name)) => name == key@,
            (
                Action::CreateEmptySyncTempTables,
                ActionView::CreateEmptySyncTempTables,
            ) => true,
            (Action::StageIncoming(contents), ActionView::StageIncoming(seen)) => seen == contents@,
            (Action::ApplyActions(actions), ActionView::ApplyActions(seen)) => seen == actions@,
            (Action::StageOutgoing, ActionView::StageOutgoing) => true,
            (Action::RecordUploaded(ids), ActionView::RecordUploaded(seen)) => seen == ids@,
            (Action::Commit, ActionView::Commit) => true,
            _ => false,
        },
{
}

/// The view of a response keeps its kind and all that it holds.
pub proof fn law_response_view<H: SyncHost>(response: Response<H>)
    ensures
        match (response, response@) {
            (Response::Unit, ResponseView::Unit) => true,
            (Response::Integer(value), ResponseView::Integer(seen)) => seen == value,
            (Response::Text(value), ResponseView::Text(seen)) => seen == value@,
            (Response::OptionalText(None), ResponseView::OptionalText(None)) => true,
            (Response::OptionalText(Some(value)), ResponseView::OptionalText(Some(seen))) => seen
                == value@,
            (Response::Records(records), ResponseView::Records(seen)) => seen == records@,
            _ => false,
        },
{
}

/// The view of a session keeps each of its actions, in order, and its end.
pub proof fn law_session_view<H: SyncHost>(session: Session<H>)
    ensures
        session@.todo.len() == session.todo@.len(),
        forall|i: int|
            0 <= i < session.todo@.len() ==> #[trigger] session@.todo[i] == session.todo@[i]@,
        match (session.tail, session@.tail) {
            (Tail::Return(response), TailView::Return(seen)) => seen == response@,
            (Tail::ReadLastSync, TailView::ReadLastSync) => true,
            (
                Tail::ReadSyncId(SyncIdReply::Report),
                TailView::ReadSyncId(SyncIdReplyView::Report),
            ) => true,
            (
                Tail::ReadSyncId(SyncIdReply::Ensure(id)),
                TailView::ReadSyncId(SyncIdReplyView::Ensure(seen)),
            ) => seen == id@,
            (Tail::NewGuid, TailView::NewGuid) => true,
            (Tail::ReadIncoming, TailView::ReadIncoming) => true,
            (Tail::ReadOutgoing, TailView::ReadOutgoing) => true,
            _ => false,
        },
{
}

/// The view of a step keeps its kind and all that it holds.
pub proof fn law_step_view<H: SyncHost>(step: Step<H>)
    ensures
        match (step, step@) {
            (Step::Perform(action, session), StepView::Perform(seen, rest)) => seen == action@
                && rest == session@,
            (Step::GetMetaInteger(key, _), StepView::GetMetaInteger(name)) => name == key@,
            (
                Step::GetMetaText(key, SyncIdReply::Report),
                StepView::GetMetaText(name, SyncIdReplyView::Report),
            ) => name == key@,
            (
                Step::GetMetaText(key, SyncIdReply::Ensure(id)),
                StepView::GetMetaText(name, SyncIdReplyView::Ensure(seen)),
            ) => name == key@ && seen == id@,
            (Step::NewGuid(_), StepView::NewGuid) => true,
            (Step::GetIncoming(_), StepView::GetIncoming) => true,
            (Step::GetOutgoing(_), StepView::GetOutgoing) => true,
            (Step::Done(Ok(response)), StepView::Done(Ok(seen))) => seen == response@,
            (Step::Done(Err(failure)), StepView::Done(Err(seen))) => seen == failure,
            _ => false,
        },
{
}

/// A session goes on with its first action, and keeps the others in order. When no
/// action is left, it reads what is still to be read, or ends with its response.
pub proof fn law_next<H: SyncHost>(session: Session<H>, step: Step<H>)
    requires
        call_ensures(Session::<H>::next, (session,), step),
    ensures
        session.todo@.len() > 0 ==> {
            &&& step matches Step::Perform(action, rest)
            &&& action@ == session.todo@[0]@
            &&& rest.todo@.len() == session.todo@.len() - 1
            &&& forall|i: int|
                0 <= i < rest.todo@.len() ==> (#[trigger] rest.todo@[i])@ == session.todo@[i + 1]@
            &&& rest.tail@ == session.tail@
        },
        session.todo@.len() == 0 ==> match session.tail {
            Tail::Return(response) => step matches Step::Done(Ok(answer)) && answer@ == response@,
            Tail::ReadLastSync => step matches Step::GetMetaInteger(key, _) && key@
                == LAST_SYNC_META_KEY@,
            Tail::ReadSyncId(reply) => step matches Step::GetMetaText(key, next) && key@
                == SYNC_ID_META_KEY@ && next@ == reply@,
            Tail::NewGuid => step is NewGuid,
            Tail::ReadIncoming => step is GetIncoming,
            Tail::ReadOutgoing => step is GetOutgoing,
        },
{
    if session.todo@.len() > 0 {
        let rest = step->Perform_1;
        assert(rest@.todo == session@.todo.drop_first());
        assert(rest@.todo.len() == rest.todo@.len());
        assert forall|i: int| 0 <= i < rest.todo@.len() implies (#[trigger] rest.todo@[i])@
            == session.todo@[i + 1]@ by {
            assert(rest@.todo[i] == session@.todo[i + 1]);
        }
    }
}

/// An action that succeeded has the session go on, and one that failed ends it with
/// the cause.
pub proof fn law_resume<H: SyncHost>(
    session: Session<H>,
    answer: Result<(), H::Cause>,
    step: Step<H>,
)
    requires
        call_ensures(Session::<H>::resume, (session, answer), step),
    ensures
        match answer {
            Ok(_) => forall|next: Step<H>| #[trigger]
                call_ensures(Session::<H>::next, (session,), next) ==> step@ == next@,
            Err(cause) => step == Step::<H>::Done(Err(Failure::Step(cause))),
        },
{
}

/// A session opens by locking the store, with all of it still to come.
pub proof fn law_open<H: SyncHost>(session: Session<H>, store: Arc<H::Store>, step: Step<H>)
    requires
        call_ensures(Session::<H>::open, (session, store), step),
    ensures
        step matches Step::Perform(Action::LockStore(locked), rest) && locked == store && rest@
            == session@,
{
}

/// A script opens on a store that is there, and is refused if there is none.
pub proof fn law_open_or_closed<H: SyncHost>(
    store: Option<Arc<H::Store>>,
    session: Session<H>,
    step: Step<H>,
)
    requires
        call_ensures(BridgedEngine::<H>::open_or_closed, (store, session), step),
    ensures
        match store {
            Some(store) => step matches Step::Perform(Action::LockStore(locked), rest) && locked
                == store && rest@ == session@,
            None => step == Step::<H>::Done(
                Err(Failure::Storage(Error::DatabaseConnectionClosed)),
            ),
        },
{
}

/// An engine asks for the store that it was made for, and for no other. It reports
/// a closed connection only if upgrading its reference gave nothing.
pub proof fn law_thread_safe_storage_db<H: SyncHost>(
    db: Arc<H::Store>,
    engine: BridgedEngine<H>,
    result: Result<Arc<H::Store>, Error>,
)
    requires
        call_ensures(BridgedEngine::<H>::new, (&db,), engine),
        call_ensures(BridgedEngine::<H>::thread_safe_storage_db, (&engine,), result),
    ensures
        match result {
            Ok(store) => {
                &&& store == db
                &&& call_ensures(BridgedEngine::<H>::upgraded, (&engine,), Some(store))
            },
            Err(error) => {
                &&& error == Error::DatabaseConnectionClosed
                &&& call_ensures(BridgedEngine::<H>::upgraded, (&engine,), None)
            },
        },
{
}

/// A store that is there is handed on, and one that is gone is a closed connection.
pub proof fn law_store_or_closed<H: SyncHost>(
    store: Option<Arc<H::Store>>,
    result: Result<Arc<H::Store>, Error>,
)
    requires
        call_ensures(BridgedEngine::<H>::store_or_closed, (store,), result),
    ensures
        match store {
            Some(store) => result == Ok::<Arc<H::Store>, Error>(store),
            None => result == Err::<Arc<H::Store>, Error>(Error::DatabaseConnectionClosed),
        },
{
}

/// A last sync time that was read is answered as it is, and as zero if there was
/// none. A read that failed is answered with its cause.
pub proof fn law_last_sync_reply<H: SyncHost>(
    reply: LastSyncReply,
    answer: Result<Option<i64>, H::Cause>,
    step: Step<H>,
)
    requires
        call_ensures(LastSyncReply::resume::<H>, (reply, answer), step),
    ensures
        match answer {
            Ok(Some(millis)) => step == Step::<H>::Done(Ok(Response::Integer(millis))),
            Ok(None) => step == Step::<H>::Done(Ok(Response::Integer(0))),
            Err(cause) => step == Step::<H>::Done(Err(Failure::Step(cause))),
        },
{
}

/// Outgoing records that were read are answered, all of them and in order. A read
/// that failed is answered with its cause.
pub proof fn law_outgoing_reply<H: SyncHost>(
    reply: OutgoingReply,
    answer: Result<Vec<H::OutgoingBso>, H::Cause>,
    step: Step<H>,
)
    requires
        call_ensures(OutgoingReply::resume::<H>, (reply, answer), step),
    ensures
        match answer {
            Ok(records) => step matches Step::Done(Ok(Response::Records(answered))) && answered@
                == records@,
            Err(cause) => step == Step::<H>::Done(Err(Failure::Step(cause))),
        },
{
}

/// Every incoming item that was read is applied, and none besides: as many actions
/// as items, the i-th holding the i-th item and what was planned for its state. The
/// outgoing records are staged and all is committed before they are read. A read
/// that failed is answered with its cause.
pub proof fn law_every_item_is_applied<H: SyncHost>(
    reply: IncomingReply,
    answer: Result<Vec<(H::IncomingItem, H::IncomingState)>, H::Cause>,
    step: Step<H>,
)
    requires
        call_ensures(IncomingReply::resume::<H>, (reply, answer), step),
    ensures
        match answer {
            Ok(incoming) => {
                &&& step matches Step::Perform(Action::ApplyActions(actions), rest)
                &&& actions@.len() == incoming@.len()
                &&& forall|i: int|
                    0 <= i < incoming@.len() ==> {
                        &&& (#[trigger] actions@[i]).0 == incoming@[i].0
                        &&& call_ensures(H::plan_incoming, (incoming@[i].1,), actions@[i].1)
                    }
                &&& rest.todo@.len() == 2
                &&& rest.todo@[0] is StageOutgoing
                &&& rest.todo@[1] is Commit
                &&& rest.tail is ReadOutgoing
            },
            Err(cause) => step == Step::<H>::Done(Err(Failure::Step(cause))),
        },
{
    if step is Perform {
        law_session_view(step->Perform_1);
        assert(step->Perform_1@.todo[0] is StageOutgoing);
        assert(step->Perform_1@.todo[1] is Commit);
    }
}

/// The contents of all incoming records are staged: as many contents as records,
/// the i-th being what unpacking the i-th record gave.
pub proof fn law_every_record_is_staged<H: SyncHost>(
    bsos: Vec<H::IncomingBso>,
    session: Session<H>,
)
    requires
        call_ensures(BridgedEngine::<H>::store_incoming_session, (bsos,), session),
    ensures
        session.todo@.len() == 5,
        session.todo@[0] is BeginInterruptScope,
        session.todo@[1] is GetConnection,
        session.todo@[2] is BeginTransaction,
        ({
            &&& session.todo@[3] matches Action::StageIncoming(contents)
            &&& contents@.len() == bsos@.len()
            &&& forall|i: int|
                0 <= i < bsos@.len() ==> call_ensures(
                    H::into_content,
                    (bsos@[i],),
                    #[trigger] contents@[i],
                )
        }),
        session.todo@[4] is Commit,
        session.tail matches Tail::Return(Response::Unit),
{
    law_session_view(session);
    assert(session@.todo[0] is BeginInterruptScope);
    assert(session@.todo[1] is GetConnection);
    assert(session@.todo[2] is BeginTransaction);
    assert(session@.todo[3] is StageIncoming);
    assert(session@.todo[4] is Commit);
}

/// What is planned so far is kept, and a reset that puts `id` in place as the sync
/// ID follows it, in this order: the mirror and the change counters, the last sync
/// time, the sync ID, the commit. The answer is `id`.
pub proof fn law_adopt_sync_id<H: SyncHost>(
    todo: Vec<Action<H>>,
    id: String,
    session: Session<H>,
)
    requires
        call_ensures(BridgedEngine::<H>::adopt_sync_id, (todo, id), session),
    ensures
        ({
            let n = todo@.len() as int;
            &&& session.todo@.len() == n + 4
            &&& forall|i: int|
                0 <= i < n ==> (#[trigger] session.todo@[i])@ == todo@[i]@
            &&& session.todo@[n] matches Action::ExecuteBatch(sql) && sql@ == RESET_SQL@
            &&& session.todo@[n + 1] matches Action::DeleteMeta(key) && key@ == LAST_SYNC_META_KEY@
            &&& session.todo@[n + 2] matches Action::PutMetaText(key, text) && key@
                == SYNC_ID_META_KEY@ && text@ == id@
            &&& session.todo@[n + 3] is Commit
            &&& session.tail matches Tail::Return(Response::Text(answer)) && answer@ == id@
        }),
{
    let n = todo@.len() as int;
    law_session_view(session);
    assert(session@.todo[n] == ActionView::<H>::ExecuteBatch(RESET_SQL@));
    assert(session@.todo[n + 1] == ActionView::<H>::DeleteMeta(LAST_SYNC_META_KEY@));
    assert(session@.todo[n + 2] == ActionView::<H>::PutMetaText(SYNC_ID_META_KEY@, id@));
    assert(session@.todo[n + 3] == ActionView::<H>::Commit);
    assert forall|i: int| 0 <= i < n implies (#[trigger] session.todo@[i])@ == todo@[i]@ by {
        assert(session@.todo[i] == action::actions_view(todo@)[i]);
    }
}

/// An identifier that was drawn becomes the sync ID under a reset, whatever it is.
pub proof fn law_guid_reply<H: SyncHost>(reply: GuidReply, new_id: String, step: Step<H>)
    requires
        call_ensures(GuidReply::resume::<H>, (reply, new_id), step),
    ensures
        ({
            &&& step matches Step::Perform(Action::ExecuteBatch(sql), rest)
            &&& sql@ == RESET_SQL@
            &&& rest.todo@.len() == 3
            &&& rest.todo@[0] matches Action::DeleteMeta(key) && key@ == LAST_SYNC_META_KEY@
            &&& rest.todo@[1] matches Action::PutMetaText(key, text) && key@ == SYNC_ID_META_KEY@
                && text@ == new_id@
            &&& rest.todo@[2] is Commit
            &&& rest.tail matches Tail::Return(Response::Text(answer)) && answer@ == new_id@
        }),
{
    let rest = step->Perform_1;
    law_session_view(rest);
    assert(rest@.todo[0] == ActionView::<H>::DeleteMeta(LAST_SYNC_META_KEY@));
    assert(rest@.todo[1] == ActionView::<H>::PutMetaText(SYNC_ID_META_KEY@, new_id@));
    assert(rest@.todo[2] == ActionView::<H>::Commit);
}

/// A sync ID that was asked for is answered as it was read, whatever it is. One that
/// is to be ensured is answered if it was read. If another one or none was read, it
/// becomes the sync ID under a reset. A read that failed is answered with its cause.
pub proof fn law_sync_id_reply<H: SyncHost>(
    reply: SyncIdReply,
    answer: Result<Option<String>, H::Cause>,
    step: Step<H>,
)
    requires
        call_ensures(SyncIdReply::resume::<H>, (reply, answer), step),
    ensures
        match (reply, answer) {
            (_, Err(cause)) => step == Step::<H>::Done(Err(Failure::Step(cause))),
            (SyncIdReply::Report, Ok(None)) => step == Step::<H>::Done(
                Ok(Response::OptionalText(None)),
            ),
            (SyncIdReply::Report, Ok(Some(current))) => step matches Step::Done(
                Ok(Response::OptionalText(Some(text))),
            ) && text@ == current@,
            (SyncIdReply::Ensure(id), Ok(current)) => {
                if current matches Some(text) && text@ == id@ {
                    step matches Step::Done(Ok(Response::Text(answer))) && answer@ == id@
                } else {
                    &&& step matches Step::Perform(Action::GetConnection, rest)
                    &&& rest.todo@.len() == 5
                    &&& rest.todo@[0] is BeginTransaction
                    &&& rest.todo@[1] matches Action::ExecuteBatch(sql) && sql@ == RESET_SQL@
                    &&& rest.todo@[2] matches Action::DeleteMeta(key) && key@
                        == LAST_SYNC_META_KEY@
                    &&& rest.todo@[3] matches Action::PutMetaText(key, text) && key@
                        == SYNC_ID_META_KEY@ && text@ == id@
                    &&& rest.todo@[4] is Commit
                    &&& rest.tail matches Tail::Return(Response::Text(answer)) && answer@ == id@
                }
            },
        },
{
    if step is Perform {
        let rest = step->Perform_1;
        law_session_view(rest);
        let id = reply->Ensure_0@;
        assert(rest@.todo[0] == ActionView::<H>::BeginTransaction);
        assert(rest@.todo[1] == ActionView::<H>::ExecuteBatch(RESET_SQL@));
        assert(rest@.todo[2] == ActionView::<H>::DeleteMeta(LAST_SYNC_META_KEY@));
        assert(rest@.todo[3] == ActionView::<H>::PutMetaText(SYNC_ID_META_KEY@, id));
        assert(rest@.todo[4] == ActionView::<H>::Commit);
    }
}

/// What is planned so far is kept, and what all resets have in common follows it,
/// without a commit.
pub proof fn law_do_reset<H: SyncHost>(todo: &mut Vec<Action<H>>)
    requires
        call_ensures(BridgedEngine::<H>::do_reset, (todo,), ()),
    ensures
        ({
            let n = old(todo)@.len() as int;
            &&& final(todo)@.len() == n + 2
            &&& forall|i: int| 0 <= i < n ==> (#[trigger] final(todo)@[i])@ == old(todo)@[i]@
            &&& final(todo)@[n] matches Action::ExecuteBatch(sql) && sql@ == RESET_SQL@
            &&& final(todo)@[n + 1] matches Action::DeleteMeta(key) && key@ == LAST_SYNC_META_KEY@
        }),
{
    let n = old(todo)@.len() as int;
    let before = action::actions_view(old(todo)@);
    let after = action::actions_view(final(todo)@);
    assert(after.len() == before.len() + 2);
    assert(after[n] == ActionView::<H>::ExecuteBatch(RESET_SQL@));
    assert(after[n + 1] == ActionView::<H>::DeleteMeta(LAST_SYNC_META_KEY@));
    assert forall|i: int| 0 <= i < n implies (#[trigger] final(todo)@[i])@ == old(todo)@[i]@ by {
        assert(after[i] == before[i]);
    }
}

/// Each of these functions gives the script of its operation.
pub proof fn law_sessions_are_scripts<H: SyncHost>()
    ensures
        forall|session: Session<H>|
            #[trigger] call_ensures(
                BridgedEngine::<H>::last_sync_session,
                (),
                session,
            ) ==> Request::<H>::LastSync.script(session@),
        forall|millis: i64, session: Session<H>|
            #[trigger] call_ensures(
                BridgedEngine::<H>::set_last_sync_session,
                (millis,),
                session,
            ) ==> Request::<H>::SetLastSync(millis).script(session@),
        forall|session: Session<H>|
            #[trigger] call_ensures(
                BridgedEngine::<H>::sync_id_session,
                (),
                session,
            ) ==> Request::<H>::SyncId.script(session@),
        forall|session: Session<H>|
            #[trigger] call_ensures(
                BridgedEngine::<H>::reset_sync_id_session,
                (),
                session,
            ) ==> Request::<H>::ResetSyncId.script(session@),
        forall|sync_id: &str, session: Session<H>|
            #[trigger] call_ensures(
                BridgedEngine::<H>::ensure_current_sync_id_session,
                (sync_id,),
                session,
            ) ==> Request::<H>::EnsureCurrentSyncId(sync_id@).script(session@),
        forall|session: Session<H>|
            #[trigger] call_ensures(
                BridgedEngine::<H>::temp_tables_session,
                (),
                session,
            ) ==> Request::<H>::SyncStarted.script(session@),
        forall|session: Session<H>|
            #[trigger] call_ensures(
                BridgedEngine::<H>::temp_tables_session,
                (),
                session,
            ) ==> Request::<H>::SyncFinished.script(session@),
        forall|bsos: Vec<H::IncomingBso>, session: Session<H>|
            #[trigger] call_ensures(
                BridgedEngine::<H>::store_incoming_session,
                (bsos,),
                session,
            ) ==> Request::<H>::StoreIncoming(bsos@).script(session@),
        forall|session: Session<H>|
            #[trigger] call_ensures(
                BridgedEngine::<H>::apply_session,
                (),
                session,
            ) ==> Request::<H>::Apply.script(session@),
        forall|millis: i64, ids: Vec<H::Guid>, session: Session<H>|
            #[trigger] call_ensures(
                BridgedEngine::<H>::set_uploaded_session,
                (millis, ids),
                session,
            ) ==> Request::<H>::SetUploaded(millis, ids@).script(session@),
        forall|session: Session<H>|
            #[trigger] call_ensures(
                BridgedEngine::<H>::reset_session,
                (),
                session,
            ) ==> Request::<H>::Reset.script(session@),
        forall|session: Session<H>|
            #[trigger] call_ensures(
                BridgedEngine::<H>::wipe_session,
                (),
                session,
            ) ==> Request::<H>::Wipe.script(session@),
{
}

/// A reset is what all resets have in common, in a transaction of its own, and then
/// the sync ID goes as well.
pub proof fn law_reset_session<H: SyncHost>(session: Session<H>)
    requires
        call_ensures(BridgedEngine::<H>::reset_session, (), session),
    ensures
        session.todo@.len() == 6,
        session.todo@[0] is GetConnection,
        session.todo@[1] is BeginTransaction,
        session.todo@[2] matches Action::ExecuteBatch(sql) && sql@ == RESET_SQL@,
        session.todo@[3] matches Action::DeleteMeta(key) && key@ == LAST_SYNC_META_KEY@,
        session.todo@[4] matches Action::DeleteMeta(key) && key@ == SYNC_ID_META_KEY@,
        session.todo@[5] is Commit,
        session.tail matches Tail::Return(Response::Unit),
{
    law_session_view(session);
    assert(session@.todo[0] == ActionView::<H>::GetConnection);
    assert(session@.todo[1] == ActionView::<H>::BeginTransaction);
    assert(session@.todo[2] == ActionView::<H>::ExecuteBatch(RESET_SQL@));
    assert(session@.todo[3] == ActionView::<H>::DeleteMeta(LAST_SYNC_META_KEY@));
    assert(session@.todo[4] == ActionView::<H>::DeleteMeta(SYNC_ID_META_KEY@));
    assert(session@.todo[5] == ActionView::<H>::Commit);
}

/// In every script the connection is taken before anything is asked of the
/// database, whether by an action or by the read at the end; only an interrupt
/// scope may come earlier. What changes more than one entry of the meta table is in
/// a transaction that is committed last, and work on records is in an interrupt
/// scope as well.
pub proof fn law_scripts_in_order<H: SyncHost>(request: Request<H>, session: SessionView<H>)
    requires
        request.script(session),
    ensures
        exists|taken: int|
            {
                &&& 0 <= taken < session.todo.len()
                &&& (#[trigger] session.todo[taken]) is GetConnection
                &&& forall|i: int|
                    0 <= i < taken ==> (#[trigger] session.todo[i]) is BeginInterruptScope
            },
        forall|i: int|
            #![trigger session.todo[i]]
            0 <= i < session.todo.len() ==> match session.todo[i] {
                ActionView::ExecuteBatch(_)
                | ActionView::PutMetaText(_, _)
                | ActionView::DeleteMeta(_)
                | ActionView::StageIncoming(_)
                | ActionView::ApplyActions(_)
                | ActionView::StageOutgoing
                | ActionView::RecordUploaded(_)
                | ActionView::Commit => {
                    &&& session.todo.take(i).contains(ActionView::BeginTransaction)
                    &&& session.todo.last() is Commit
                },
                _ => true,
            },
        forall|i: int|
            #![trigger session.todo[i]]
            0 <= i < session.todo.len() && (session.todo[i] is StageIncoming
                || session.todo[i] is RecordUploaded) ==> session.todo.take(i).contains(
                ActionView::BeginInterruptScope,
            ),
        session.tail is NewGuid || session.tail is ReadIncoming ==> session.todo.contains(
            ActionView::BeginTransaction,
        ) && !session.todo.contains(ActionView::Commit),
        session.tail is ReadIncoming ==> session.todo.contains(ActionView::BeginInterruptScope),
{
    let todo = session.todo;
    if request is StoreIncoming || request is Apply {
        assert(todo[0] is BeginInterruptScope && todo[1] is GetConnection);
    } else {
        assert(todo[0] is GetConnection);
    }
    assert forall|i: int, j: int| 0 <= j < i < todo.len() implies #[trigger] todo.take(i).contains(
        #[trigger] todo[j],
    ) by {
        assert(todo.take(i)[j] == todo[j]);
    }
}

} // verus!
