//! The bridged engine: which script each operation runs, and what it decides
//! along the way.

use crate::action;
use crate::action::{
    Action, ActionView, Response, ResponseView, LAST_SYNC_META_KEY, RESET_SQL, SYNC_ID_META_KEY,
    WIPE_SQL,
};
use crate::error::{Error, Failure};
use crate::host::SyncHost;
use crate::reply;
use crate::reply::{SyncIdReply, SyncIdReplyView};
use crate::session::{Session, SessionView, Step, StepView, Tail, TailView};
use crate::weak::StoreRef;
use std::sync::Arc;
use vstd::prelude::*;

verus! {

/// An operation of a sync engine, with its arguments.
pub enum Request<H: SyncHost> {
    LastSync,
    SetLastSync(i64),
    SyncId,
    ResetSyncId,
    EnsureCurrentSyncId(Seq<char>),
    PrepareForSync(Seq<char>),
    SyncStarted,
    StoreIncoming(Seq<H::IncomingBso>),
    Apply,
    SetUploaded(i64, Seq<H::Guid>),
    SyncFinished,
    Reset,
    Wipe,
}

/// An engine that can be bridged to the application's sync service.
pub trait SyncEngine {
    type Host: SyncHost;

    /// Whether the operation may start with this step.
    spec fn starts(&self, request: Request<Self::Host>, step: StepView<Self::Host>) -> bool;

    /// The time of the last sync, in milliseconds.
    fn last_sync(&self) -> (step: Step<Self::Host>)
        ensures
            self.starts(Request::LastSync, step@),
    ;

    /// Sets the time of the last sync.
    fn set_last_sync(&self, last_sync_millis: i64) -> (step: Step<Self::Host>)
        ensures
            self.starts(Request::SetLastSync(last_sync_millis), step@),
    ;

    /// The sync ID, if there is one.
    fn sync_id(&self) -> (step: Step<Self::Host>)
        ensures
            self.starts(Request::SyncId, step@),
    ;

    /// Resets the engine under a new sync ID, and answers that ID.
    fn reset_sync_id(&self) -> (step: Step<Self::Host>)
        ensures
            self.starts(Request::ResetSyncId, step@),
    ;

    /// Makes sure that this is the sync ID, resetting the engine if it was not.
    fn ensure_current_sync_id(&self, sync_id: &str) -> (step: Step<Self::Host>)
        ensures
            self.starts(Request::EnsureCurrentSyncId(sync_id@), step@),
    ;

    /// Tells the engine about the clients that take part in the sync.
    fn prepare_for_sync(&self, client_data: &str) -> (step: Step<Self::Host>)
        ensures
            self.starts(Request::PrepareForSync(client_data@), step@),
    ;

    /// Tells the engine that a sync starts.
    fn sync_started(&self) -> (step: Step<Self::Host>)
        ensures
            self.starts(Request::SyncStarted, step@),
    ;

    /// Stages incoming records.
    fn store_incoming(&self, incoming_bsos: Vec<<Self::Host as SyncHost>::IncomingBso>) -> (step:
        Step<Self::Host>)
        ensures
            self.starts(Request::StoreIncoming(incoming_bsos@), step@),
    ;

    /// Applies the staged records, and answers the records to upload.
    fn apply(&self) -> (step: Step<Self::Host>)
        ensures
            self.starts(Request::Apply, step@),
    ;

    /// Notes that these records were uploaded.
    fn set_uploaded(
        &self,
        server_modified_millis: i64,
        ids: Vec<<Self::Host as SyncHost>::Guid>,
    ) -> (step: Step<Self::Host>)
        ensures
            self.starts(Request::SetUploaded(server_modified_millis, ids@), step@),
    ;

    /// Tells the engine that the sync is over.
    fn sync_finished(&self) -> (step: Step<Self::Host>)
        ensures
            self.starts(Request::SyncFinished, step@),
    ;

    /// Resets all sync state, and keeps the data.
    fn reset(&self) -> (step: Step<Self::Host>)
        ensures
            self.starts(Request::Reset, step@),
    ;

    /// Wipes all data.
    fn wipe(&self) -> (step: Step<Self::Host>)
        ensures
            self.starts(Request::Wipe, step@),
    ;
}

/// Each record's content, in order.
pub open spec fn contents_of<H: SyncHost>(
    bsos: Seq<H::IncomingBso>,
    contents: Seq<H::IncomingContent>,
) -> bool {
    &&& contents.len() == bsos.len()
    &&& forall|i: int|
        0 <= i < bsos.len() ==> call_ensures(H::into_content, (bsos[i],), #[trigger] contents[i])
}

/// What `store_incoming` runs to stage these contents.
pub open spec fn store_session<H: SyncHost>(contents: Seq<H::IncomingContent>) -> SessionView<H> {
    SessionView {
        todo: seq![
            ActionView::BeginInterruptScope,
            ActionView::GetConnection,
            ActionView::BeginTransaction,
            ActionView::StageIncoming(contents),
            ActionView::Commit,
        ],
        tail: TailView::Return(ResponseView::Unit),
    }
}

/// Whether `session` stages the contents of these records.
pub open spec fn stores<H: SyncHost>(bsos: Seq<H::IncomingBso>, session: SessionView<H>) -> bool {
    exists|contents: Seq<H::IncomingContent>|
        {
            &&& #[trigger] contents_of::<H>(bsos, contents)
            &&& session == store_session::<H>(contents)
        }
}

impl<H: SyncHost> Request<H> {
    /// Whether `session` is what a bridged engine runs for this operation once
    /// the store is locked.
    pub open spec fn script(self, session: SessionView<H>) -> bool {
        match self {
            Request::LastSync => session == SessionView::<H> {
                todo: seq![ActionView::GetConnection],
                tail: TailView::ReadLastSync,
            },
            Request::SetLastSync(millis) => session == SessionView::<H> {
                todo: seq![
                    ActionView::GetConnection,
                    ActionView::PutMetaInteger(LAST_SYNC_META_KEY@, millis),
                ],
                tail: TailView::Return(ResponseView::Unit),
            },
            Request::SyncId => session == SessionView::<H> {
                todo: seq![ActionView::GetConnection],
                tail: TailView::ReadSyncId(SyncIdReplyView::Report),
            },
            Request::ResetSyncId => session == SessionView::<H> {
                todo: seq![ActionView::GetConnection, ActionView::BeginTransaction],
                tail: TailView::NewGuid,
            },
            Request::EnsureCurrentSyncId(id) => session == SessionView::<H> {
                todo: seq![ActionView::GetConnection],
                tail: TailView::ReadSyncId(SyncIdReplyView::Ensure(id)),
            },
            // The store is not opened for this one.
            Request::PrepareForSync(_) => false,
            Request::SyncStarted | Request::SyncFinished => session == SessionView::<H> {
                todo: seq![ActionView::GetConnection, ActionView::CreateEmptySyncTempTables],
                tail: TailView::Return(ResponseView::Unit),
            },
            Request::StoreIncoming(bsos) => stores::<H>(bsos, session),
            Request::Apply => session == SessionView::<H> {
                todo: seq![
                    ActionView::BeginInterruptScope,
                    ActionView::GetConnection,
                    ActionView::BeginTransaction,
                ],
                tail: TailView::ReadIncoming,
            },
            Request::SetUploaded(_, ids) => session == SessionView::<H> {
                todo: seq![
                    ActionView::GetConnection,
                    ActionView::BeginInterruptScope,
                    ActionView::BeginTransaction,
                    ActionView::RecordUploaded(ids),
                    ActionView::Commit,
                ],
                tail: TailView::Return(ResponseView::Unit),
            },
            Request::Reset => session == SessionView::<H> {
                todo: seq![ActionView::GetConnection, ActionView::BeginTransaction]
                    + reply::do_reset_actions::<H>() + seq![
                    ActionView::DeleteMeta(SYNC_ID_META_KEY@),
                    ActionView::Commit,
                ],
                tail: TailView::Return(ResponseView::Unit),
            },
            Request::Wipe => session == SessionView::<H> {
                todo: seq![
                    ActionView::GetConnection,
                    ActionView::BeginTransaction,
                    ActionView::ExecuteBatch(WIPE_SQL@),
                    ActionView::Commit,
                ],
                tail: TailView::Return(ResponseView::Unit),
            },
        }
    }
}

/// The engine of the `storage.sync` store.
///
/// It keeps a weak reference to the store, so that it does not outlive it.
#[verifier::reject_recursive_types(H)]
pub struct BridgedEngine<H: SyncHost> {
    db: StoreRef<H::Store>,
}

impl<H: SyncHost> BridgedEngine<H> {
    /// The store that the engine was made for. As everywhere in contracts, stores
    /// are the same if the values that the references point to are.
    pub closed spec fn store(&self) -> Arc<H::Store> {
        self.db.target()
    }

    /// Creates a bridged engine for syncing.
    pub fn new(db: &Arc<H::Store>) -> (engine: Self)
        ensures
            engine.store() == *db,
    {
        BridgedEngine { db: StoreRef::downgrade(db) }
    }

    /// Whether upgrading the engine's reference may give this.
    pub closed spec fn upgrades_to(&self, store: Option<Arc<H::Store>>) -> bool {
        call_ensures(StoreRef::<H::Store>::upgrade, (&self.db,), store)
    }

    /// The store that the engine was made for, if upgrading the engine's reference
    /// gives it.
    pub fn upgraded(&self) -> (store: Option<Arc<H::Store>>)
        ensures
            self.upgrades_to(store),
            store matches Some(value) ==> value == self.store(),
    {
        self.db.upgrade()
    }

    /// The store that the engine was made for, or an error if it is gone.
    pub fn thread_safe_storage_db(&self) -> (result: Result<Arc<H::Store>, Error>)
        ensures
            match result {
                Ok(store) => {
                    &&& store == self.store()
                    &&& call_ensures(Self::upgraded, (self,), Some(store))
                },
                Err(error) => {
                    &&& error == Error::DatabaseConnectionClosed
                    &&& call_ensures(Self::upgraded, (self,), None)
                },
            },
    {
        Self::store_or_closed(self.upgraded())
    }

    /// A store that is gone is reported as a closed connection.
    pub fn store_or_closed(store: Option<Arc<H::Store>>) -> (result: Result<Arc<H::Store>, Error>)
        ensures
            result == match store {
                Some(store) => Ok::<Arc<H::Store>, Error>(store),
                None => Err(Error::DatabaseConnectionClosed),
            },
    {
        match store {
            Some(store) => Ok(store),
            None => Err(Error::DatabaseConnectionClosed),
        }
    }

    /// Appends what every kind of reset has in common.
    pub fn do_reset(todo: &mut Vec<Action<H>>)
        ensures
            action::actions_view(final(todo)@) == action::actions_view(old(todo)@)
                + reply::do_reset_actions::<H>(),
    {
        todo.push(Action::ExecuteBatch(RESET_SQL));
        todo.push(Action::DeleteMeta(LAST_SYNC_META_KEY));
        assert(action::actions_view(todo@) =~= action::actions_view(old(todo)@)
            + reply::do_reset_actions::<H>());
    }

    /// Follows `todo` with a reset that puts `id` in place as the sync ID.
    pub fn adopt_sync_id(todo: Vec<Action<H>>, id: String) -> (session: Session<H>)
        ensures
            session@ == reply::adopt_session::<H>(action::actions_view(todo@), id@),
    {
        let ghost before = action::actions_view(todo@);
        let mut todo = todo;
        Self::do_reset(&mut todo);
        let ghost reset = action::actions_view(todo@);
        todo.push(Action::PutMetaText(SYNC_ID_META_KEY, id.clone()));
        todo.push(Action::Commit);
        let session = Session { todo, tail: Tail::Return(Response::Text(id)) };
        assert(session@.todo =~= before + reply::adopt_actions::<H>(id@)) by {
            assert(session@.todo =~= reset.push(
                ActionView::PutMetaText(SYNC_ID_META_KEY@, id@),
            ).push(ActionView::Commit));
        }
        session
    }

    /// The script of `last_sync`.
    pub fn last_sync_session() -> (session: Session<H>)
        ensures
            Request::<H>::LastSync.script(session@),
    {
        let mut todo: Vec<Action<H>> = Vec::new();
        todo.push(Action::GetConnection);
        let session = Session { todo, tail: Tail::ReadLastSync };
        assert(session@.todo =~= seq![ActionView::GetConnection]);
        session
    }

    /// The script of `set_last_sync`.
    pub fn set_last_sync_session(last_sync_millis: i64) -> (session: Session<H>)
        ensures
            Request::<H>::SetLastSync(last_sync_millis).script(session@),
    {
        let mut todo: Vec<Action<H>> = Vec::new();
        todo.push(Action::GetConnection);
        todo.push(Action::PutMetaInteger(LAST_SYNC_META_KEY, last_sync_millis));
        let session = Session { todo, tail: Tail::Return(Response::Unit) };
        assert(session@.todo =~= seq![
            ActionView::GetConnection,
            ActionView::PutMetaInteger(LAST_SYNC_META_KEY@, last_sync_millis),
        ]);
        session
    }

    /// The script of `sync_id`.
    pub fn sync_id_session() -> (session: Session<H>)
        ensures
            Request::<H>::SyncId.script(session@),
    {
        let mut todo: Vec<Action<H>> = Vec::new();
        todo.push(Action::GetConnection);
        let session = Session { todo, tail: Tail::ReadSyncId(SyncIdReply::Report) };
        assert(session@.todo =~= seq![ActionView::GetConnection]);
        session
    }

    /// The script of `reset_sync_id`.
    pub fn reset_sync_id_session() -> (session: Session<H>)
        ensures
            Request::<H>::ResetSyncId.script(session@),
    {
        let mut todo: Vec<Action<H>> = Vec::new();
        todo.push(Action::GetConnection);
        todo.push(Action::BeginTransaction);
        let session = Session { todo, tail: Tail::NewGuid };
        assert(session@.todo =~= seq![ActionView::GetConnection, ActionView::BeginTransaction]);
        session
    }

    /// The script of `ensure_current_sync_id`.
    pub fn ensure_current_sync_id_session(sync_id: &str) -> (session: Session<H>)
        ensures
            Request::<H>::EnsureCurrentSyncId(sync_id@).script(session@),
    {
        let mut todo: Vec<Action<H>> = Vec::new();
        todo.push(Action::GetConnection);
        let session = Session {
            todo,
            tail: Tail::ReadSyncId(SyncIdReply::Ensure(sync_id.to_owned())),
        };
        assert(session@.todo =~= seq![ActionView::GetConnection]);
        session
    }

    /// The script of `sync_started` and of `sync_finished`: create or empty the
    /// temporary tables that a sync works in.
    pub fn temp_tables_session() -> (session: Session<H>)
        ensures
            Request::<H>::SyncStarted.script(session@),
            Request::<H>::SyncFinished.script(session@),
    {
        let mut todo: Vec<Action<H>> = Vec::new();
        todo.push(Action::GetConnection);
        todo.push(Action::CreateEmptySyncTempTables);
        let session = Session { todo, tail: Tail::Return(Response::Unit) };
        assert(session@.todo =~= seq![
            ActionView::GetConnection,
            ActionView::CreateEmptySyncTempTables,
        ]);
        session
    }

    /// The script of `store_incoming`, with the records' contents unpacked.
    pub fn store_incoming_session(incoming_bsos: Vec<H::IncomingBso>) -> (session: Session<H>)
        ensures
            Request::<H>::StoreIncoming(incoming_bsos@).script(session@),
    {
        let mut contents: Vec<H::IncomingContent> = Vec::new();
        for bso in bsos: incoming_bsos
            invariant
                bsos.seq() == incoming_bsos@,
                contents@.len() == bsos.index(),
                forall|i: int|
                    0 <= i < bsos.index() ==> call_ensures(
                        H::into_content,
                        (incoming_bsos@[i],),
                        #[trigger] contents@[i],
                    ),
        {
            contents.push(H::into_content(bso));
        }
        let ghost staged = contents@;
        assert(contents_of::<H>(incoming_bsos@, staged));
        let mut todo: Vec<Action<H>> = Vec::new();
        todo.push(Action::BeginInterruptScope);
        todo.push(Action::GetConnection);
        todo.push(Action::BeginTransaction);
        todo.push(Action::StageIncoming(contents));
        todo.push(Action::Commit);
        let session = Session { todo, tail: Tail::Return(Response::Unit) };
        assert(session@.todo =~= store_session::<H>(staged).todo);
        assert(stores::<H>(incoming_bsos@, session@));
        session
    }

    /// The script of `apply`.
    pub fn apply_session() -> (session: Session<H>)
        ensures
            Request::<H>::Apply.script(session@),
    {
        let mut todo: Vec<Action<H>> = Vec::new();
        todo.push(Action::BeginInterruptScope);
        todo.push(Action::GetConnection);
        todo.push(Action::BeginTransaction);
        let session = Session { todo, tail: Tail::ReadIncoming };
        assert(session@.todo =~= seq![
            ActionView::BeginInterruptScope,
            ActionView::GetConnection,
            ActionView::BeginTransaction,
        ]);
        session
    }

    /// The script of `set_uploaded`. The server's time is not used.
    pub fn set_uploaded_session(server_modified_millis: i64, ids: Vec<H::Guid>) -> (session: Session<H>)
        ensures
            Request::<H>::SetUploaded(server_modified_millis, ids@).script(session@),
    {
        let mut todo: Vec<Action<H>> = Vec::new();
        todo.push(Action::GetConnection);
        todo.push(Action::BeginInterruptScope);
        todo.push(Action::BeginTransaction);
        todo.push(Action::RecordUploaded(ids));
        todo.push(Action::Commit);
        let session = Session { todo, tail: Tail::Return(Response::Unit) };
        assert(session@.todo =~= seq![
            ActionView::GetConnection,
            ActionView::BeginInterruptScope,
            ActionView::BeginTransaction,
            ActionView::RecordUploaded(ids@),
            ActionView::Commit,
        ]);
        session
    }

    /// The script of `reset`.
    pub fn reset_session() -> (session: Session<H>)
        ensures
            Request::<H>::Reset.script(session@),
    {
        let mut todo: Vec<Action<H>> = Vec::new();
        todo.push(Action::GetConnection);
        todo.push(Action::BeginTransaction);
        assert(action::actions_view(todo@) =~= seq![
            ActionView::GetConnection,
            ActionView::BeginTransaction,
        ]);
        Self::do_reset(&mut todo);
        let ghost reset = action::actions_view(todo@);
        todo.push(Action::DeleteMeta(SYNC_ID_META_KEY));
        todo.push(Action::Commit);
        let session = Session { todo, tail: Tail::Return(Response::Unit) };
        assert(session@.todo =~= reset + seq![
            ActionView::DeleteMeta(SYNC_ID_META_KEY@),
            ActionView::Commit,
        ]);
        session
    }

    /// The script of `wipe`.
    pub fn wipe_session() -> (session: Session<H>)
        ensures
            Request::<H>::Wipe.script(session@),
    {
        let mut todo: Vec<Action<H>> = Vec::new();
        todo.push(Action::GetConnection);
        todo.push(Action::BeginTransaction);
        todo.push(Action::ExecuteBatch(WIPE_SQL));
        todo.push(Action::Commit);
        let session = Session { todo, tail: Tail::Return(Response::Unit) };
        assert(session@.todo =~= seq![
            ActionView::GetConnection,
            ActionView::BeginTransaction,
            ActionView::ExecuteBatch(WIPE_SQL@),
            ActionView::Commit,
        ]);
        session
    }

    /// The first step of a session, given what upgrading the engine's reference
    /// gave: lock the store, or refuse because it is gone.
    pub fn open_or_closed(store: Option<Arc<H::Store>>, session: Session<H>) -> (step: Step<H>)
        ensures
            step@ == session@.open_or_closed(store),
    {
        match Self::store_or_closed(store) {
            Ok(store) => session.open(store),
            Err(error) => Step::Done(Err(Failure::Storage(error))),
        }
    }
}

impl<H: SyncHost> SyncEngine for BridgedEngine<H> {
    type Host = H;

    /// Every operation but one opens its script on the engine's own store, or is
    /// refused because that store is gone.
    open spec fn starts(&self, request: Request<H>, step: StepView<H>) -> bool {
        match request {
            Request::PrepareForSync(_) => step == StepView::<H>::Done(Ok(ResponseView::Unit)),
            _ => {
                ||| step == StepView::<H>::closed() && call_ensures(Self::upgraded, (self,), None)
                ||| exists|session: SessionView<H>|
                    {
                        &&& #[trigger] request.script(session)
                        &&& step == session.open(self.store())
                        &&& call_ensures(Self::upgraded, (self,), Some(self.store()))
                    }
            },
        }
    }

    fn last_sync(&self) -> Step<H> {
        Self::open_or_closed(self.upgraded(), Self::last_sync_session())
    }

    fn set_last_sync(&self, last_sync_millis: i64) -> Step<H> {
        Self::open_or_closed(self.upgraded(), Self::set_last_sync_session(last_sync_millis))
    }

    fn sync_id(&self) -> Step<H> {
        Self::open_or_closed(self.upgraded(), Self::sync_id_session())
    }

    fn reset_sync_id(&self) -> Step<H> {
        Self::open_or_closed(self.upgraded(), Self::reset_sync_id_session())
    }

    fn ensure_current_sync_id(&self, sync_id: &str) -> Step<H> {
        Self::open_or_closed(self.upgraded(), Self::ensure_current_sync_id_session(sync_id))
    }

    fn prepare_for_sync(&self, client_data: &str) -> Step<H> {
        Step::Done(Ok(Response::Unit))
    }

    fn sync_started(&self) -> Step<H> {
        Self::open_or_closed(self.upgraded(), Self::temp_tables_session())
    }

    fn store_incoming(&self, incoming_bsos: Vec<H::IncomingBso>) -> Step<H> {
        Self::open_or_closed(self.upgraded(), Self::store_incoming_session(incoming_bsos))
    }

    fn apply(&self) -> Step<H> {
        Self::open_or_closed(self.upgraded(), Self::apply_session())
    }

    fn set_uploaded(&self, server_modified_millis: i64, ids: Vec<H::Guid>) -> Step<H> {
        Self::open_or_closed(self.upgraded(), Self::set_uploaded_session(server_modified_millis, ids))
    }

    fn sync_finished(&self) -> Step<H> {
        Self::open_or_closed(self.upgraded(), Self::temp_tables_session())
    }

    fn reset(&self) -> Step<H> {
        Self::open_or_closed(self.upgraded(), Self::reset_session())
    }

    fn wipe(&self) -> Step<H> {
        Self::open_or_closed(self.upgraded(), Self::wipe_session())
    }
}

} // verus!
