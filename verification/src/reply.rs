//! What takes the answers to a session's reads, and what it decides on them.

use crate::action;
use crate::action::{
    Action, ActionView, Response, ResponseView, LAST_SYNC_META_KEY, RESET_SQL, SYNC_ID_META_KEY,
};
use crate::engine::BridgedEngine;
use crate::error::Failure;
use crate::host::SyncHost;
use crate::session::{Session, SessionView, Step, StepView, Tail, TailView};
use vstd::prelude::*;

verus! {

/// Empties the mirror, marks every local row as changed, and forgets the last
/// sync time.
pub open spec fn do_reset_actions<H: SyncHost>() -> Seq<ActionView<H>> {
    seq![ActionView::ExecuteBatch(RESET_SQL@), ActionView::DeleteMeta(LAST_SYNC_META_KEY@)]
}

/// Resets, puts `id` in place as the sync ID, and commits.
pub open spec fn adopt_actions<H: SyncHost>(id: Seq<char>) -> Seq<ActionView<H>> {
    do_reset_actions::<H>() + seq![
        ActionView::PutMetaText(SYNC_ID_META_KEY@, id),
        ActionView::Commit,
    ]
}

/// What is left of an operation once its new sync ID is known.
pub open spec fn adopt_session<H: SyncHost>(
    before: Seq<ActionView<H>>,
    id: Seq<char>,
) -> SessionView<H> {
    SessionView {
        todo: before + adopt_actions::<H>(id),
        tail: TailView::Return(ResponseView::Text(id)),
    }
}

/// What is left of `apply` once the incoming items are planned.
pub open spec fn apply_session<H: SyncHost>(
    actions: Seq<(H::IncomingItem, H::IncomingAction)>,
) -> SessionView<H> {
    SessionView {
        todo: seq![
            ActionView::ApplyActions(actions),
            ActionView::StageOutgoing,
            ActionView::Commit,
        ],
        tail: TailView::ReadOutgoing,
    }
}

/// Each item with the action planned for its state, in order.
pub open spec fn plans_of<H: SyncHost>(
    incoming: Seq<(H::IncomingItem, H::IncomingState)>,
    actions: Seq<(H::IncomingItem, H::IncomingAction)>,
) -> bool {
    &&& actions.len() == incoming.len()
    &&& forall|i: int|
        0 <= i < incoming.len() ==> {
            &&& (#[trigger] actions[i]).0 == incoming[i].0
            &&& call_ensures(H::plan_incoming, (incoming[i].1,), actions[i].1)
        }
}

/// Takes the last sync time that was read.
pub struct LastSyncReply;

impl LastSyncReply {
    /// The end of `last_sync`: a time that was never set reads as zero.
    pub open spec fn step<H: SyncHost>(answer: Result<Option<i64>, H::Cause>) -> StepView<H> {
        match answer {
            Ok(Some(millis)) => StepView::Done(Ok(ResponseView::Integer(millis))),
            Ok(None) => StepView::Done(Ok(ResponseView::Integer(0))),
            Err(cause) => StepView::failed(cause),
        }
    }

    /// Takes the answer to the read.
    pub fn resume<H: SyncHost>(self, answer: Result<Option<i64>, H::Cause>) -> (step: Step<H>)
        ensures
            step@ == Self::step::<H>(answer),
    {
        match answer {
            Ok(millis) => Step::Done(Ok(Response::Integer(millis.unwrap_or(0)))),
            Err(cause) => Step::Done(Err(Failure::Step(cause))),
        }
    }
}

/// Takes the sync ID that was read.
pub enum SyncIdReply {
    /// Answer it.
    Report,
    /// Make sure that it is this one.
    Ensure(String),
}

/// The abstraction of a [`SyncIdReply`].
pub enum SyncIdReplyView {
    Report,
    Ensure(Seq<char>),
}

impl View for SyncIdReply {
    type V = SyncIdReplyView;

    open spec fn view(&self) -> SyncIdReplyView {
        match *self {
            SyncIdReply::Report => SyncIdReplyView::Report,
            SyncIdReply::Ensure(id) => SyncIdReplyView::Ensure(id@),
        }
    }
}

impl SyncIdReplyView {
    /// What follows the read: the ID is answered if that was all, or if it is
    /// the wanted one. If it is another one, or if there was none, the engine is
    /// reset under the wanted one.
    pub open spec fn step<H: SyncHost>(
        self,
        answer: Result<Option<Seq<char>>, H::Cause>,
    ) -> StepView<H> {
        match (self, answer) {
            (_, Err(cause)) => StepView::failed(cause),
            (SyncIdReplyView::Report, Ok(current)) => StepView::Done(
                Ok(ResponseView::OptionalText(current)),
            ),
            (SyncIdReplyView::Ensure(id), Ok(current)) => if current == Some(id) {
                StepView::Done(Ok(ResponseView::Text(id)))
            } else {
                adopt_session::<H>(
                    seq![ActionView::GetConnection, ActionView::BeginTransaction],
                    id,
                ).next()
            },
        }
    }
}

/// The abstraction of a text that was read.
pub open spec fn text_answer<C>(answer: Result<Option<String>, C>) -> Result<
    Option<Seq<char>>,
    C,
> {
    match answer {
        Ok(text) => Ok(action::text_view(text)),
        Err(cause) => Err(cause),
    }
}

impl SyncIdReply {
    /// Takes the answer to the read.
    pub fn resume<H: SyncHost>(self, answer: Result<Option<String>, H::Cause>) -> (step: Step<H>)
        ensures
            step@ == self@.step::<H>(text_answer(answer)),
    {
        let current = match answer {
            Ok(current) => current,
            Err(cause) => return Step::Done(Err(Failure::Step(cause))),
        };
        let sync_id = match self {
            SyncIdReply::Report => return Step::Done(Ok(Response::OptionalText(current))),
            SyncIdReply::Ensure(sync_id) => sync_id,
        };
        match current {
            Some(current) if current == sync_id => Step::Done(Ok(Response::Text(current))),
            _ => {
                let mut todo: Vec<Action<H>> = Vec::new();
                todo.push(Action::GetConnection);
                todo.push(Action::BeginTransaction);
                assert(action::actions_view(todo@) =~= seq![
                    ActionView::GetConnection,
                    ActionView::BeginTransaction,
                ]);
                BridgedEngine::<H>::adopt_sync_id(todo, sync_id).next()
            },
        }
    }
}

/// Takes an identifier that was drawn.
pub struct GuidReply;

impl GuidReply {
    /// The engine is reset under the new identifier.
    pub fn resume<H: SyncHost>(self, new_id: String) -> (step: Step<H>)
        ensures
            step@ == adopt_session::<H>(Seq::empty(), new_id@).next(),
    {
        let todo: Vec<Action<H>> = Vec::new();
        assert(action::actions_view(todo@) =~= Seq::<ActionView<H>>::empty());
        BridgedEngine::<H>::adopt_sync_id(todo, new_id).next()
    }
}

/// Takes the incoming items that were read.
pub struct IncomingReply;

impl IncomingReply {
    /// Every item is paired with the action planned for its state, and the
    /// actions are applied.
    pub fn resume<H: SyncHost>(
        self,
        answer: Result<Vec<(H::IncomingItem, H::IncomingState)>, H::Cause>,
    ) -> (step: Step<H>)
        ensures
            match answer {
                Ok(incoming) => exists|actions: Seq<(H::IncomingItem, H::IncomingAction)>|
                    {
                        &&& #[trigger] plans_of::<H>(incoming@, actions)
                        &&& step@ == apply_session::<H>(actions).next()
                    },
                Err(cause) => step@ == StepView::<H>::failed(cause),
            },
    {
        let incoming = match answer {
            Ok(incoming) => incoming,
            Err(cause) => return Step::Done(Err(Failure::Step(cause))),
        };
        let mut actions: Vec<(H::IncomingItem, H::IncomingAction)> = Vec::new();
        for pair in pairs: incoming
            invariant
                pairs.seq() == incoming@,
                actions@.len() == pairs.index(),
                forall|i: int|
                    0 <= i < pairs.index() ==> {
                        &&& (#[trigger] actions@[i]).0 == incoming@[i].0
                        &&& call_ensures(H::plan_incoming, (incoming@[i].1,), actions@[i].1)
                    },
        {
            let (item, state) = pair;
            actions.push((item, H::plan_incoming(state)));
        }
        let ghost planned = actions@;
        assert(plans_of::<H>(incoming@, planned));
        let mut todo: Vec<Action<H>> = Vec::new();
        todo.push(Action::ApplyActions(actions));
        todo.push(Action::StageOutgoing);
        todo.push(Action::Commit);
        let session = Session { todo, tail: Tail::ReadOutgoing };
        assert(session@.todo =~= apply_session::<H>(planned).todo);
        session.next()
    }
}

/// Takes the outgoing records that were read.
pub struct OutgoingReply;

impl OutgoingReply {
    /// The end of `apply`: the records are answered as they were read.
    pub open spec fn step<H: SyncHost>(
        answer: Result<Seq<H::OutgoingBso>, H::Cause>,
    ) -> StepView<H> {
        match answer {
            Ok(records) => StepView::Done(Ok(ResponseView::Records(records))),
            Err(cause) => StepView::failed(cause),
        }
    }

    /// Takes the answer to the read.
    pub fn resume<H: SyncHost>(self, answer: Result<Vec<H::OutgoingBso>, H::Cause>) -> (step: Step<
        H,
    >)
        ensures
            step@ == Self::step::<H>(
                match answer {
                    Ok(records) => Ok(records@),
                    Err(cause) => Err(cause),
                },
            ),
    {
        match answer {
            Ok(records) => Step::Done(Ok(Response::Records(records))),
            Err(cause) => Step::Done(Err(Failure::Step(cause))),
        }
    }
}

} // verus!
