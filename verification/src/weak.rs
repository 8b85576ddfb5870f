//! Weak references that remember, for proofs, what they refer to.

use std::sync::{Arc, Weak};
use vstd::prelude::*;

verus! {

/// std's weak reference.
#[verifier::external_body]
#[verifier::reject_recursive_types(T)]
struct RawWeak<T>(Weak<T>);

/// A reference to a shared value that does not keep the value alive.
#[verifier::reject_recursive_types(T)]
pub struct StoreRef<T> {
    raw: RawWeak<T>,
    target: Ghost<Arc<T>>,
}

impl<T> StoreRef<T> {
    /// The value that this was made from.
    pub closed spec fn target(&self) -> Arc<T> {
        self.target@
    }

    /// `Arc::downgrade`: a weak reference to the value that `store` points to.
    /// That the value is not kept alive is not stated.
    #[verifier::external_body]
    pub(crate) fn downgrade(store: &Arc<T>) -> (weak: StoreRef<T>)
        ensures
            weak.target() == *store,
    {
        StoreRef { raw: RawWeak(Arc::downgrade(store)), target: Ghost(*store) }
    }

    /// `Weak::upgrade`: the value that the reference was made from, or nothing.
    /// Which of the two it is depends on the strong references that are left at
    /// the time, and is not stated.
    #[verifier::external_body]
    pub(crate) fn upgrade(&self) -> (store: Option<Arc<T>>)
        ensures
            store matches Some(value) ==> value == self.target(),
    {
        self.raw.0.upgrade()
    }
}

} // verus!
