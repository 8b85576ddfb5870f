//! A model of the database that sessions run against, and of a whole run.

use crate::action::{
    ActionView, ResponseView, LAST_SYNC_META_KEY, RESET_SQL, SYNC_ID_META_KEY, WIPE_SQL,
};
use crate::error::Failure;
use crate::host::SyncHost;
use crate::reply;
use crate::reply::{LastSyncReply, OutgoingReply, SyncIdReplyView};
use crate::session::{SessionView, StepView, TailView};
use std::sync::Arc;
use vstd::prelude::*;

verus! {

/// A row of `storage_sync_data`.
pub struct DataRow {
    pub ext_id: Seq<char>,
    pub data: Option<Seq<char>>,
    pub sync_change_counter: int,
}

/// A row of `storage_sync_mirror`.
pub struct MirrorRow {
    pub guid: Seq<char>,
    pub ext_id: Seq<char>,
    pub data: Option<Seq<char>>,
}

/// A value in the `meta` table.
pub enum MetaValue {
    Integer(i64),
    Text(Seq<char>),
}

/// What is in the temporary tables that a sync works in: the incoming records
/// that were staged, and the records staged for upload.
#[verifier::ext_equal]
pub struct Staged {
    pub incoming: Seq<Seq<char>>,
    pub outgoing: Seq<Seq<char>>,
}

/// The tables of the store.
#[verifier::ext_equal]
pub struct Tables {
    pub data: Seq<DataRow>,
    pub mirror: Seq<MirrorRow>,
    pub meta: Map<Seq<char>, MetaValue>,
    pub staged: Staged,
}

impl Tables {
    /// The tables with every row marked as changed once.
    pub open spec fn mark_changed(self) -> Tables {
        Tables {
            data: Seq::new(
                self.data.len(),
                |i: int| DataRow { sync_change_counter: 1, ..self.data[i] },
            ),
            ..self
        }
    }

    /// The tables with an empty mirror.
    pub open spec fn clear_mirror(self) -> Tables {
        Tables { mirror: Seq::empty(), ..self }
    }

    pub open spec fn put_meta(self, key: Seq<char>, value: MetaValue) -> Tables {
        Tables { meta: self.meta.insert(key, value), ..self }
    }

    pub open spec fn delete_meta(self, key: Seq<char>) -> Tables {
        Tables { meta: self.meta.remove(key), ..self }
    }

    /// The tables with nothing in them but what is staged.
    pub open spec fn wiped(self) -> Tables {
        Tables { data: Seq::empty(), mirror: Seq::empty(), meta: Map::empty(), ..self }
    }

    /// The tables with nothing staged.
    pub open spec fn unstaged(self) -> Tables {
        Tables { staged: Staged { incoming: Seq::empty(), outgoing: Seq::empty() }, ..self }
    }

    /// What every kind of reset does: the mirror goes, all rows count as
    /// changed, and the last sync time is forgotten.
    pub open spec fn reset(self) -> Tables {
        self.clear_mirror().mark_changed().delete_meta(LAST_SYNC_META_KEY@)
    }

    /// A reset that puts `id` in place as the sync ID.
    pub open spec fn adopt(self, id: Seq<char>) -> Tables {
        self.reset().put_meta(SYNC_ID_META_KEY@, MetaValue::Text(id))
    }

    /// What a batch of statements does.
    pub open spec fn execute(self, sql: Seq<char>) -> Tables {
        if sql == RESET_SQL@ {
            self.clear_mirror().mark_changed()
        } else if sql == WIPE_SQL@ {
            self.wiped()
        } else {
            self
        }
    }

    /// Whether what is under a meta key, if anything is, is an integer.
    pub open spec fn holds_integer(self, key: Seq<char>) -> bool {
        self.meta.contains_key(key) ==> self.meta[key] is Integer
    }

    /// Whether what is under a meta key, if anything is, is a text.
    pub open spec fn holds_text(self, key: Seq<char>) -> bool {
        self.meta.contains_key(key) ==> self.meta[key] is Text
    }

    /// The integer under a meta key, where there is no text.
    pub open spec fn integer(self, key: Seq<char>) -> Option<i64>
        recommends
            self.holds_integer(key),
    {
        if self.meta.contains_key(key) {
            Some(self.meta[key]->Integer_0)
        } else {
            None
        }
    }

    /// The text under a meta key, where there is no integer.
    pub open spec fn text(self, key: Seq<char>) -> Option<Seq<char>>
        recommends
            self.holds_text(key),
    {
        if self.meta.contains_key(key) {
            Some(self.meta[key]->Text_0)
        } else {
            None
        }
    }

    /// The last sync time and the sync ID, where they are set, are an integer
    /// and a text.
    pub open spec fn well_typed(self) -> bool {
        &&& self.holds_integer(LAST_SYNC_META_KEY@)
        &&& self.holds_text(SYNC_ID_META_KEY@)
    }
}

/// The database as a session sees it: what is durable, what an open transaction
/// would make of it, and what the session has taken hold of.
pub struct World {
    pub durable: Tables,
    pub pending: Option<Tables>,
    /// Whether the store is locked.
    pub locked: bool,
    /// Whether the connection was taken.
    pub connected: bool,
    /// Whether an interrupt scope was begun.
    pub interruptible: bool,
}

/// All that a run depends on besides the tables.
#[verifier::reject_recursive_types(H)]
pub struct Environment<H: SyncHost> {
    /// The cause that the n-th step fails with, if it does.
    pub fails: spec_fn(nat) -> Option<H::Cause>,
    /// The cause that a step fails with when it cannot be done: when it needs
    /// what the session has not taken hold of, or reads a value of another type.
    pub refused: H::Cause,
    /// The identifier that is drawn.
    pub guid: Seq<char>,
    /// What an action that works on records or on the temporary tables does when
    /// it succeeds.
    pub effect: spec_fn(ActionView<H>, Tables) -> Tables,
    /// What such an action has done by the time it fails.
    pub partial: spec_fn(ActionView<H>, Tables) -> Tables,
    /// The incoming items, each with its state.
    pub incoming: spec_fn(Tables) -> Seq<(H::IncomingItem, H::IncomingState)>,
    /// The actions planned for incoming items.
    pub plan: spec_fn(Seq<(H::IncomingItem, H::IncomingState)>) -> Seq<
        (H::IncomingItem, H::IncomingAction),
    >,
    /// The outgoing records.
    pub outgoing: spec_fn(Tables) -> Seq<H::OutgoingBso>,
}

impl<H: SyncHost> Environment<H> {
    /// Whether none of the first `n` steps fails.
    pub open spec fn smooth(self, n: nat) -> bool {
        self.smooth_between(0, n)
    }

    /// Whether no step from the n-th on and before the m-th fails.
    pub open spec fn smooth_between(self, n: nat, m: nat) -> bool {
        forall|k: nat| n <= k < m ==> #[trigger] (self.fails)(k) is None
    }

    /// Whether this is the cause of the first step to fail from the n-th on and
    /// before the m-th.
    pub open spec fn fails_first(self, n: nat, m: nat, failure: Failure<H::Cause>) -> bool {
        exists|k: nat|
            {
                &&& n <= k < m
                &&& #[trigger] (self.fails)(k) matches Some(cause) && failure
                    == Failure::<H::Cause>::Step(cause)
                &&& self.smooth_between(n, k)
            }
    }

    /// Whether the actions that work on records or on the temporary tables leave
    /// the meta table alone.
    pub open spec fn keeps_meta(self) -> bool {
        &&& forall|action: ActionView<H>, tables: Tables|
            (#[trigger] (self.effect)(action, tables)).meta == tables.meta
        &&& forall|action: ActionView<H>, tables: Tables|
            (#[trigger] (self.partial)(action, tables)).meta == tables.meta
    }

    /// Whether a second creation of the temporary tables changes nothing.
    pub open spec fn creates_once(self) -> bool {
        forall|tables: Tables|
            {
                let created = #[trigger] (self.effect)(
                    ActionView::CreateEmptySyncTempTables,
                    tables,
                );
                (self.effect)(ActionView::CreateEmptySyncTempTables, created) == created
            }
    }

    /// Whether creating the temporary tables empties them and does nothing else.
    pub open spec fn empties_staged(self) -> bool {
        forall|tables: Tables|
            #[trigger] (self.effect)(ActionView::CreateEmptySyncTempTables, tables)
                == tables.unstaged()
    }

    /// Whether each item that these tables hold is planned by its own state.
    pub open spec fn plans_items(self, tables: Tables) -> bool {
        reply::plans_of::<H>((self.incoming)(tables), (self.plan)((self.incoming)(tables)))
    }

    /// The answer to the n-th step, which would answer `value` if it can be done.
    pub open spec fn answer<A>(self, n: nat, can_be_done: bool, value: A) -> Result<A, H::Cause> {
        match (self.fails)(n) {
            Some(cause) => Err(cause),
            None => if can_be_done {
                Ok(value)
            } else {
                Err(self.refused)
            },
        }
    }

    /// The answer to the n-th step, which reads an integer from the meta table.
    /// The read fails on a text.
    pub open spec fn read_integer(self, n: nat, world: World, key: Seq<char>) -> Result<
        Option<i64>,
        H::Cause,
    > {
        let tables = world.tables();
        self.answer(n, world.connected && tables.holds_integer(key), tables.integer(key))
    }

    /// The answer to the n-th step, which reads a text from the meta table. The
    /// read fails on an integer.
    pub open spec fn read_text(self, n: nat, world: World, key: Seq<char>) -> Result<
        Option<Seq<char>>,
        H::Cause,
    > {
        let tables = world.tables();
        self.answer(n, world.connected && tables.holds_text(key), tables.text(key))
    }
}

impl World {
    /// The database before a session: nothing is taken hold of.
    pub open spec fn at_rest(tables: Tables) -> World {
        World {
            durable: tables,
            pending: None,
            locked: false,
            connected: false,
            interruptible: false,
        }
    }

    /// Whether what an action needs is taken hold of: the store for its connection
    /// and for an interrupt scope, the connection for all that goes to the
    /// database, a transaction for work on records and for a commit, and an
    /// interrupt scope for work on records that takes long.
    pub open spec fn allows<H: SyncHost>(self, action: ActionView<H>) -> bool {
        match action {
            ActionView::LockStore(_) => !self.locked,
            ActionView::GetConnection | ActionView::BeginInterruptScope => self.locked,
            ActionView::BeginTransaction => self.connected && self.pending is None,
            ActionView::Commit => self.pending is Some,
            ActionView::ExecuteBatch(_)
            | ActionView::PutMetaInteger(_, _)
            | ActionView::PutMetaText(_, _)
            | ActionView::DeleteMeta(_)
            | ActionView::CreateEmptySyncTempTables => self.connected,
            ActionView::StageOutgoing => self.connected && self.pending is Some,
            ActionView::StageIncoming(_)
            | ActionView::ApplyActions(_)
            | ActionView::RecordUploaded(_) => self.connected && self.pending is Some
                && self.interruptible,
        }
    }

    /// What a read sees.
    pub open spec fn tables(self) -> Tables {
        match self.pending {
            Some(tables) => tables,
            None => self.durable,
        }
    }

    /// A write: into the transaction if one is open, else at once.
    pub open spec fn write(self, tables: Tables) -> World {
        match self.pending {
            Some(_) => World { pending: Some(tables), ..self },
            None => World { durable: tables, ..self },
        }
    }

    /// The database after an action that succeeded.
    pub open spec fn performed<H: SyncHost>(self, action: ActionView<H>, env: Environment<H>) -> World {
        match action {
            ActionView::LockStore(_) => World { locked: true, ..self },
            ActionView::GetConnection => World { connected: true, ..self },
            ActionView::BeginInterruptScope => World { interruptible: true, ..self },
            ActionView::BeginTransaction => World { pending: Some(self.tables()), ..self },
            ActionView::Commit => World { durable: self.tables(), pending: None, ..self },
            ActionView::ExecuteBatch(sql) => self.write(self.tables().execute(sql)),
            ActionView::PutMetaInteger(key, value) => self.write(
                self.tables().put_meta(key, MetaValue::Integer(value)),
            ),
            ActionView::PutMetaText(key, value) => self.write(
                self.tables().put_meta(key, MetaValue::Text(value)),
            ),
            ActionView::DeleteMeta(key) => self.write(self.tables().delete_meta(key)),
            ActionView::CreateEmptySyncTempTables
            | ActionView::StageIncoming(_)
            | ActionView::ApplyActions(_)
            | ActionView::StageOutgoing
            | ActionView::RecordUploaded(_) => self.write((env.effect)(action, self.tables())),
        }
    }

    /// The database after a list of actions that all succeeded.
    pub open spec fn performed_all<H: SyncHost>(
        self,
        actions: Seq<ActionView<H>>,
        env: Environment<H>,
    ) -> World
        decreases actions.len(),
    {
        if actions.len() == 0 {
            self
        } else {
            self.performed(actions[0], env).performed_all(actions.drop_first(), env)
        }
    }

    /// The database after an action that failed. A single statement that fails
    /// leaves no trace, and neither does what fails in a transaction, which is
    /// then rolled back.
    pub open spec fn failed<H: SyncHost>(self, action: ActionView<H>, env: Environment<H>) -> World {
        match action {
            ActionView::CreateEmptySyncTempTables
            | ActionView::StageIncoming(_)
            | ActionView::ApplyActions(_)
            | ActionView::StageOutgoing
            | ActionView::RecordUploaded(_) => self.write((env.partial)(action, self.tables())),
            _ => self,
        }
    }
}

/// What came of a run: the tables it left, and what it answered.
pub struct Outcome<H: SyncHost> {
    pub tables: Tables,
    pub result: Result<ResponseView<H>, Failure<H::Cause>>,
}

impl<H: SyncHost> TailView<H> {
    /// How many steps are left at most.
    pub open spec fn size(self) -> nat {
        match self {
            TailView::Return(_) => 0,
            TailView::ReadLastSync => 1,
            TailView::ReadSyncId(SyncIdReplyView::Report) => 1,
            TailView::ReadSyncId(SyncIdReplyView::Ensure(_)) => 7,
            TailView::NewGuid => 5,
            TailView::ReadIncoming => 5,
            TailView::ReadOutgoing => 1,
        }
    }
}

impl<H: SyncHost> SessionView<H> {
    /// How many steps are left at most.
    pub open spec fn size(self) -> nat {
        self.todo.len() + self.tail.size()
    }
}

impl<H: SyncHost> StepView<H> {
    /// How many steps are left at most, this one among them.
    pub open spec fn size(self) -> nat {
        match self {
            StepView::Perform(_, session) => 1 + session.size(),
            StepView::GetMetaInteger(_) => TailView::<H>::ReadLastSync.size(),
            StepView::GetMetaText(_, reply) => TailView::<H>::ReadSyncId(reply).size(),
            StepView::NewGuid => TailView::<H>::NewGuid.size(),
            StepView::GetIncoming => TailView::<H>::ReadIncoming.size(),
            StepView::GetOutgoing => TailView::<H>::ReadOutgoing.size(),
            StepView::Done(_) => 0,
        }
    }

    /// The step that follows the n-th step of a run, when that step is this one.
    pub open spec fn following(self, world: World, env: Environment<H>, n: nat) -> StepView<H> {
        match self {
            StepView::Perform(action, session) => session.resume(
                env.answer(n, world.allows(action), ()),
            ),
            StepView::GetMetaInteger(key) => LastSyncReply::step::<H>(
                env.read_integer(n, world, key),
            ),
            StepView::GetMetaText(key, reply) => reply.step::<H>(env.read_text(n, world, key)),
            StepView::NewGuid => reply::adopt_session::<H>(Seq::empty(), env.guid).next(),
            StepView::GetIncoming => match env.answer(
                n,
                world.connected && world.pending is Some,
                (env.incoming)(world.tables()),
            ) {
                Ok(incoming) => reply::apply_session::<H>((env.plan)(incoming)).next(),
                Err(cause) => StepView::failed(cause),
            },
            StepView::GetOutgoing => OutgoingReply::step::<H>(
                env.answer(
                    n,
                    world.connected && world.interruptible,
                    (env.outgoing)(world.tables()),
                ),
            ),
            StepView::Done(_) => self,
        }
    }

    /// The database after this step, the n-th of a run.
    pub open spec fn world_after(self, world: World, env: Environment<H>, n: nat) -> World {
        match self {
            StepView::Perform(action, _) => if (env.fails)(n) is Some {
                world.failed(action, env)
            } else if world.allows(action) {
                world.performed(action, env)
            } else {
                world
            },
            _ => world,
        }
    }

    /// Runs a session to its end, from its n-th step on. Drawing an identifier
    /// is not counted as a step, since it does not fail. What a transaction still
    /// open has written is lost.
    pub open spec fn run(self, world: World, env: Environment<H>, n: nat) -> Outcome<H>
        decreases self.size(),
    {
        match self {
            StepView::Done(result) => Outcome { tables: world.durable, result },
            StepView::NewGuid => self.following(world, env, n).run(world, env, n),
            _ => self.following(world, env, n).run(self.world_after(world, env, n), env, n + 1),
        }
    }
}

/// What came of an operation: the tables of every store, and the answer.
pub struct Operated<H: SyncHost> {
    pub databases: Map<Arc<H::Store>, Tables>,
    pub result: Result<ResponseView<H>, Failure<H::Cause>>,
}

impl<H: SyncHost> StepView<H> {
    /// Runs an operation that starts with this step, on the store that it locks.
    pub open spec fn operate(
        self,
        databases: Map<Arc<H::Store>, Tables>,
        env: Environment<H>,
    ) -> Operated<H> {
        match self {
            StepView::Perform(ActionView::LockStore(store), _) => {
                let outcome = self.run(World::at_rest(databases[store]), env, 0);
                Operated {
                    databases: databases.insert(store, outcome.tables),
                    result: outcome.result,
                }
            },
            StepView::Done(result) => Operated { databases, result },
            // No operation starts in another way.
            _ => arbitrary(),
        }
    }
}

} // verus!
