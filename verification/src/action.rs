//! The steps that a session asks for, and the answers an operation gives.

use crate::host::SyncHost;
use std::sync::Arc;
use vstd::prelude::*;

verus! {

/// The meta key that holds the time of the last sync, in milliseconds.
pub const LAST_SYNC_META_KEY: &'static str = "last_sync_time";

/// The meta key that holds the sync ID.
pub const SYNC_ID_META_KEY: &'static str = "sync_id";

/// Empties the mirror and marks every local row as changed once.
pub const RESET_SQL: &'static str = "DELETE FROM storage_sync_mirror;
             UPDATE storage_sync_data SET sync_change_counter = 1;";

/// Empties every table. The meta table is taken to be used by sync alone.
pub const WIPE_SQL: &'static str =
    "DELETE FROM storage_sync_data; DELETE FROM storage_sync_mirror; DELETE FROM meta;";

/// A step that is answered with success or with a cause.
pub enum Action<H: SyncHost> {
    /// Lock this store, and keep it locked until the session is over.
    LockStore(Arc<H::Store>),
    /// Take the locked store's connection.
    GetConnection,
    /// Begin an interrupt scope on the locked store.
    BeginInterruptScope,
    /// Begin a transaction. It is rolled back at the end of the session unless
    /// it was committed.
    BeginTransaction,
    /// Run these SQL statements.
    ExecuteBatch(&'static str),
    /// Write an integer into the meta table.
    PutMetaInteger(&'static str, i64),
    /// Write a text into the meta table.
    PutMetaText(&'static str, String),
    /// Delete a key from the meta table.
    DeleteMeta(&'static str),
    /// Create the temporary sync tables, or empty them.
    CreateEmptySyncTempTables,
    /// Stage incoming content.
    StageIncoming(Vec<H::IncomingContent>),
    /// Apply planned actions to the staged items.
    ApplyActions(Vec<(H::IncomingItem, H::IncomingAction)>),
    /// Stage the records that are to be uploaded.
    StageOutgoing,
    /// Record that these items were uploaded.
    RecordUploaded(Vec<H::Guid>),
    /// Commit the transaction.
    Commit,
}

/// The abstraction of an [`Action`].
pub enum ActionView<H: SyncHost> {
    LockStore(Arc<H::Store>),
    GetConnection,
    BeginInterruptScope,
    BeginTransaction,
    ExecuteBatch(Seq<char>),
    PutMetaInteger(Seq<char>, i64),
    PutMetaText(Seq<char>, Seq<char>),
    DeleteMeta(Seq<char>),
    CreateEmptySyncTempTables,
    StageIncoming(Seq<H::IncomingContent>),
    ApplyActions(Seq<(H::IncomingItem, H::IncomingAction)>),
    StageOutgoing,
    RecordUploaded(Seq<H::Guid>),
    Commit,
}

impl<H: SyncHost> View for Action<H> {
    type V = ActionView<H>;

    open spec fn view(&self) -> ActionView<H> {
        match *self {
            Action::LockStore(store) => ActionView::LockStore(store),
            Action::GetConnection => ActionView::GetConnection,
            Action::BeginInterruptScope => ActionView::BeginInterruptScope,
            Action::BeginTransaction => ActionView::BeginTransaction,
            Action::ExecuteBatch(sql) => ActionView::ExecuteBatch(sql@),
            Action::PutMetaInteger(key, value) => ActionView::PutMetaInteger(key@, value),
            Action::PutMetaText(key, value) => ActionView::PutMetaText(key@, value@),
            Action::DeleteMeta(key) => ActionView::DeleteMeta(key@),
            Action::CreateEmptySyncTempTables => ActionView::CreateEmptySyncTempTables,
            Action::StageIncoming(content) => ActionView::StageIncoming(content@),
            Action::ApplyActions(actions) => ActionView::ApplyActions(actions@),
            Action::StageOutgoing => ActionView::StageOutgoing,
            Action::RecordUploaded(ids) => ActionView::RecordUploaded(ids@),
            Action::Commit => ActionView::Commit,
        }
    }
}

/// The abstraction of a list of actions.
pub open spec fn actions_view<H: SyncHost>(actions: Seq<Action<H>>) -> Seq<ActionView<H>> {
    Seq::new(actions.len(), |i: int| actions[i]@)
}

/// What a successful operation answers.
pub enum Response<H: SyncHost> {
    Unit,
    Integer(i64),
    Text(String),
    OptionalText(Option<String>),
    Records(Vec<H::OutgoingBso>),
}

/// The abstraction of a [`Response`].
pub enum ResponseView<H: SyncHost> {
    Unit,
    Integer(i64),
    Text(Seq<char>),
    OptionalText(Option<Seq<char>>),
    Records(Seq<H::OutgoingBso>),
}

/// The abstraction of an optional text.
pub open spec fn text_view(text: Option<String>) -> Option<Seq<char>> {
    match text {
        Some(value) => Some(value@),
        None => None,
    }
}

impl<H: SyncHost> View for Response<H> {
    type V = ResponseView<H>;

    open spec fn view(&self) -> ResponseView<H> {
        match *self {
            Response::Unit => ResponseView::Unit,
            Response::Integer(value) => ResponseView::Integer(value),
            Response::Text(value) => ResponseView::Text(value@),
            Response::OptionalText(value) => ResponseView::OptionalText(text_view(value)),
            Response::Records(records) => ResponseView::Records(records@),
        }
    }
}

} // verus!
