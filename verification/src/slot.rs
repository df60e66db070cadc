//! The identity-tagged owner of one store.

use vstd::prelude::*;

verus! {

/// Owns exactly one store, tagged with the identity of the instantiation it
/// was created for.
///
/// A slot stands between the registry, which is shared by every
/// instantiation of a call site, and one instantiation's concrete store.
/// The tag records which instantiation the store was created under, and the
/// slot is only ever opened under that same identity: `open` and
/// `into_store` demand that the caller's identity equal the tag.  A mismatch
/// would be a bookkeeping defect in the caller, not a runtime condition this
/// type handles, so no fallible access path is offered.
pub struct Slot<S> {
    tag: u64,
    store: S,
}

impl<S> Slot<S> {
    /// The instantiation identity this slot was created under.
    pub closed spec fn tag(&self) -> u64 {
        self.tag
    }

    /// The store this slot owns.
    pub closed spec fn store(&self) -> S {
        self.store
    }

    /// Wrap a freshly initialized store under the given instantiation
    /// identity.
    pub fn create(tag: u64, store: S) -> (slot: Slot<S>)
        ensures
            slot.tag() == tag,
            slot.store() == store,
    {
        Slot { tag, store }
    }

    /// Borrow the store, under the identity the slot was created with.
    pub fn open(&self, tag: u64) -> (store: &S)
        requires
            tag == self.tag(),
        ensures
            *store == self.store(),
    {
        &self.store
    }

    /// Unwrap the store, under the identity the slot was created with.
    pub fn into_store(self, tag: u64) -> (store: S)
        requires
            tag == self.tag(),
        ensures
            store == self.store(),
    {
        self.store
    }
}

} // verus!
