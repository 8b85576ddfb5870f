//! Sessions: the scripts that the engine's operations run.

use crate::action;
use crate::action::{
    Action, ActionView, Response, ResponseView, LAST_SYNC_META_KEY, SYNC_ID_META_KEY,
};
use crate::error::{Error, Failure};
use crate::host::SyncHost;
use crate::reply::{
    GuidReply, IncomingReply, LastSyncReply, OutgoingReply, SyncIdReply, SyncIdReplyView,
};
use std::sync::Arc;
use vstd::prelude::*;

verus! {

/// What a session does when its list of actions is exhausted.
pub enum Tail<H: SyncHost> {
    /// End with this response.
    Return(Response<H>),
    /// Read the last sync time.
    ReadLastSync,
    /// Read the sync ID.
    ReadSyncId(SyncIdReply),
    /// Draw a new identifier.
    NewGuid,
    /// Read the staged incoming items.
    ReadIncoming,
    /// Read the staged outgoing records.
    ReadOutgoing,
}

/// The abstraction of a [`Tail`].
pub enum TailView<H: SyncHost> {
    Return(ResponseView<H>),
    ReadLastSync,
    ReadSyncId(SyncIdReplyView),
    NewGuid,
    ReadIncoming,
    ReadOutgoing,
}

impl<H: SyncHost> View for Tail<H> {
    type V = TailView<H>;

    open spec fn view(&self) -> TailView<H> {
        match *self {
            Tail::Return(response) => TailView::Return(response@),
            Tail::ReadLastSync => TailView::ReadLastSync,
            Tail::ReadSyncId(reply) => TailView::ReadSyncId(reply@),
            Tail::NewGuid => TailView::NewGuid,
            Tail::ReadIncoming => TailView::ReadIncoming,
            Tail::ReadOutgoing => TailView::ReadOutgoing,
        }
    }
}

/// What is left of an operation: actions to perform in order, then the tail.
pub struct Session<H: SyncHost> {
    pub todo: Vec<Action<H>>,
    pub tail: Tail<H>,
}

/// The abstraction of a [`Session`].
pub struct SessionView<H: SyncHost> {
    pub todo: Seq<ActionView<H>>,
    pub tail: TailView<H>,
}

/// What the application is to do now. All but the last come with what takes
/// the answer.
pub enum Step<H: SyncHost> {
    /// Perform an action.
    Perform(Action<H>, Session<H>),
    /// Read an integer from the meta table.
    GetMetaInteger(&'static str, LastSyncReply),
    /// Read a text from the meta table.
    GetMetaText(&'static str, SyncIdReply),
    /// Draw a random identifier.
    NewGuid(GuidReply),
    /// Read the staged incoming items with their states.
    GetIncoming(IncomingReply),
    /// Read the staged outgoing records.
    GetOutgoing(OutgoingReply),
    /// The operation is over. A transaction still open is rolled back.
    Done(Result<Response<H>, Failure<H::Cause>>),
}

/// The abstraction of a [`Step`].
pub enum StepView<H: SyncHost> {
    Perform(ActionView<H>, SessionView<H>),
    GetMetaInteger(Seq<char>),
    GetMetaText(Seq<char>, SyncIdReplyView),
    NewGuid,
    GetIncoming,
    GetOutgoing,
    Done(Result<ResponseView<H>, Failure<H::Cause>>),
}

impl<H: SyncHost> View for Session<H> {
    type V = SessionView<H>;

    open spec fn view(&self) -> SessionView<H> {
        SessionView { todo: action::actions_view(self.todo@), tail: self.tail@ }
    }
}

impl<H: SyncHost> View for Step<H> {
    type V = StepView<H>;

    open spec fn view(&self) -> StepView<H> {
        match *self {
            Step::Perform(action, session) => StepView::Perform(action@, session@),
            Step::GetMetaInteger(key, _) => StepView::GetMetaInteger(key@),
            Step::GetMetaText(key, reply) => StepView::GetMetaText(key@, reply@),
            Step::NewGuid(_) => StepView::NewGuid,
            Step::GetIncoming(_) => StepView::GetIncoming,
            Step::GetOutgoing(_) => StepView::GetOutgoing,
            Step::Done(Ok(response)) => StepView::Done(Ok(response@)),
            Step::Done(Err(failure)) => StepView::Done(Err(failure)),
        }
    }
}

impl<H: SyncHost> StepView<H> {
    /// The end of an operation whose store is gone.
    pub open spec fn closed() -> StepView<H> {
        StepView::Done(Err(Failure::Storage(Error::DatabaseConnectionClosed)))
    }

    /// The end of a session one of whose steps failed.
    pub open spec fn failed(cause: H::Cause) -> StepView<H> {
        StepView::Done(Err(Failure::Step(cause)))
    }
}

impl<H: SyncHost> SessionView<H> {
    /// The next step: the first action that is left, or else the tail.
    pub open spec fn next(self) -> StepView<H> {
        if self.todo.len() > 0 {
            StepView::Perform(
                self.todo[0],
                SessionView { todo: self.todo.drop_first(), tail: self.tail },
            )
        } else {
            match self.tail {
                TailView::Return(response) => StepView::Done(Ok(response)),
                TailView::ReadLastSync => StepView::GetMetaInteger(LAST_SYNC_META_KEY@),
                TailView::ReadSyncId(reply) => StepView::GetMetaText(SYNC_ID_META_KEY@, reply),
                TailView::NewGuid => StepView::NewGuid,
                TailView::ReadIncoming => StepView::GetIncoming,
                TailView::ReadOutgoing => StepView::GetOutgoing,
            }
        }
    }

    /// The step that follows an answered action: success goes on, and a failure
    /// ends the session with its cause.
    pub open spec fn resume(self, answer: Result<(), H::Cause>) -> StepView<H> {
        match answer {
            Ok(_) => self.next(),
            Err(cause) => StepView::failed(cause),
        }
    }

    /// The first step: lock the store.
    pub open spec fn open(self, store: Arc<H::Store>) -> StepView<H> {
        StepView::Perform(ActionView::LockStore(store), self)
    }

    /// The first step on a store that may be gone.
    pub open spec fn open_or_closed(self, store: Option<Arc<H::Store>>) -> StepView<H> {
        match store {
            Some(store) => self.open(store),
            None => StepView::closed(),
        }
    }
}

impl<H: SyncHost> Session<H> {
    /// The next step of the session.
    pub fn next(self) -> (step: Step<H>)
        ensures
            step@ == self@.next(),
    {
        let mut todo = self.todo;
        if todo.len() > 0 {
            let action = todo.remove(0);
            let rest = Session { todo, tail: self.tail };
            assert(rest@.todo =~= self@.todo.drop_first());
            Step::Perform(action, rest)
        } else {
            match self.tail {
                Tail::Return(response) => Step::Done(Ok(response)),
                Tail::ReadLastSync => Step::GetMetaInteger(LAST_SYNC_META_KEY, LastSyncReply),
                Tail::ReadSyncId(reply) => Step::GetMetaText(SYNC_ID_META_KEY, reply),
                Tail::NewGuid => Step::NewGuid(GuidReply),
                Tail::ReadIncoming => Step::GetIncoming(IncomingReply),
                Tail::ReadOutgoing => Step::GetOutgoing(OutgoingReply),
            }
        }
    }

    /// Takes the answer to the action that came with this session.
    pub fn resume(self, answer: Result<(), H::Cause>) -> (step: Step<H>)
        ensures
            step@ == self@.resume(answer),
    {
        match answer {
            Ok(_) => self.next(),
            Err(cause) => Step::Done(Err(Failure::Step(cause))),
        }
    }

    /// The first step of the session.
    pub fn open(self, store: Arc<H::Store>) -> (step: Step<H>)
        ensures
            step@ == self@.open(store),
    {
        Step::Perform(Action::LockStore(store), self)
    }
}

} // verus!
