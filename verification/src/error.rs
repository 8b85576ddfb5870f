//! Errors of the storage component.

use anyhow::Error as AnyhowError;
use vstd::prelude::*;

verus! {

/// The opaque error type that `anyhow` hands around.
#[verifier::external_type_specification]
#[verifier::external_body]
pub struct ExAnyhowError(AnyhowError);

/// The storage component's own errors, as far as the bridge raises them.
#[derive(Debug, PartialEq)]
pub enum Error {
    /// The store behind an engine has been dropped.
    DatabaseConnectionClosed,
    /// An error of the sync engine, reduced to its message.
    SyncError(String),
}

/// Why an operation of the engine did not succeed.
#[derive(Debug, PartialEq)]
pub enum Failure<C> {
    /// The bridge itself refused.
    Storage(Error),
    /// A step that the application performed failed with this cause.
    Step(C),
}

impl From<AnyhowError> for Error {
    /// Keeps the message that the error displays.
    fn from(value: AnyhowError) -> (error: Error)
        ensures
            error matches Error::SyncError(message)
                && vstd::string::to_string_from_display_ensures(&value, message),
    {
        Error::SyncError(value.to_string())
    }
}

/// An error's message need not be a function of the error's value, so the
/// conversion is described by the `ensures` of `from` alone.
impl vstd::std_specs::convert::FromSpecImpl<AnyhowError> for Error {
    open spec fn obeys_from_spec() -> bool {
        false
    }

    open spec fn from_spec(value: AnyhowError) -> Error {
        arbitrary()
    }
}

} // verus!
