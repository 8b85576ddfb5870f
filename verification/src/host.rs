//! What the embedding application brings along.

use vstd::prelude::*;

verus! {

/// The types that pass through the bridge without being looked into, and the
/// conversions between them.
///
/// Nothing is promised of the functions: contracts that involve one of them say
/// which arguments it was called with and where its result went.
pub trait SyncHost: Sized {
    /// The shared, lockable storage database.
    type Store;

    /// What a failed step or conversion fails with.
    type Cause;

    /// A record as the server sent it.
    type IncomingBso;

    /// The content of an incoming record.
    type IncomingContent;

    /// A staged incoming item.
    type IncomingItem;

    /// The state of an incoming item against the local and mirrored data.
    type IncomingState;

    /// What is to be done about an incoming item.
    type IncomingAction;

    /// A record for the server.
    type OutgoingBso;

    /// The identifier of a record.
    type Guid;

    /// Unpacks the content of an incoming record.
    fn into_content(bso: Self::IncomingBso) -> Self::IncomingContent;

    /// Decides what to do about an item in the given state.
    fn plan_incoming(state: Self::IncomingState) -> Self::IncomingAction;

    /// Reads a record from its JSON text.
    fn parse_incoming(json: String) -> Result<Self::IncomingBso, Self::Cause>;

    /// Writes a record as JSON text.
    fn serialize_outgoing(record: Self::OutgoingBso) -> Result<String, Self::Cause>;
}

} // verus!
