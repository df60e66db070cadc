//! The per-call-site table of slots.

use vstd::prelude::*;
use std::collections::HashMap;
use crate::slot::Slot;
use vstd::pervasive::unreached;

verus! {

broadcast use vstd::std_specs::hash::group_hash_axioms;

/// The table one call site owns: a mapping from instantiation identity to
/// the slot holding that instantiation's store.
///
/// A registry is created once per call site and lives as long as the
/// process; entries are created lazily, on the first invocation under a
/// given instantiation, and are never removed.  All access goes through the
/// guarded accessors below: `resolve` creates an entry exactly once, and
/// `acquire`/`release` bracket every read or write of a store, handing the
/// store out by value and taking it back — exclusive access for the
/// duration, as a lock guard would give.  `acquire` without a matching
/// `release` is visible in the contracts as a missing entry, so a verified
/// caller cannot leave a slot empty.
pub struct Registry<S> {
    call_site: u64,
    table: HashMap<u64, Slot<S>>,
}

impl<S> Registry<S> {
    /// The call-site identity this registry serves.
    pub closed spec fn call_site(&self) -> u64 {
        self.call_site
    }

    /// The slot held for each instantiation.
    pub closed spec fn slots(&self) -> Map<u64, Slot<S>> {
        self.table@
    }

    /// The store held for each instantiation.
    pub open spec fn stores(&self) -> Map<u64, S> {
        self.slots().map_values(|slot: Slot<S>| slot.store())
    }

    /// Every slot carries the identity it is filed under: a slot created
    /// for one instantiation can never be opened as another's.
    pub open spec fn wf(&self) -> bool {
        forall|i: u64| #[trigger] self.slots().contains_key(i) ==> self.slots()[i].tag() == i
    }

    /// How `stores` follows `slots`, entry by entry.
    proof fn lemma_stores(self)
        ensures
            forall|i: u64| #[trigger]
                self.stores().contains_key(i) <==> self.slots().contains_key(i),
            forall|i: u64| #[trigger]
                self.slots().contains_key(i) ==> self.stores()[i] == self.slots()[i].store(),
    {
    }

    /// An empty registry for the given call site.
    pub fn new(call_site: u64) -> (registry: Registry<S>)
        ensures
            registry.wf(),
            registry.call_site() == call_site,
            registry.stores() == Map::<u64, S>::empty(),
    {
        let registry = Registry { call_site, table: HashMap::new() };
        proof {
            registry.lemma_stores();
            assert(registry.stores() =~= Map::<u64, S>::empty());
        }
        registry
    }

    /// Make sure the instantiation has a slot, running `init` to build the
    /// store if — and only if — none exists yet.
    ///
    /// The first resolution for an instantiation runs the initializer
    /// exactly once and installs the slot; every later resolution finds the
    /// slot present and leaves the registry untouched, initializer unrun.
    pub fn resolve<F: FnOnce() -> S>(&mut self, call_site: u64, instantiation: u64, init: F)
        requires
            old(self).wf(),
            call_site == old(self).call_site(),
            init.requires(()),
        ensures
            final(self).wf(),
            final(self).call_site() == old(self).call_site(),
            final(self).stores().contains_key(instantiation),
            old(self).stores().contains_key(instantiation) ==> *final(self) == *old(self),
            !old(self).stores().contains_key(instantiation) ==> {
                &&& init.ensures((), final(self).stores()[instantiation])
                &&& final(self).stores() == old(self).stores().insert(
                    instantiation,
                    final(self).stores()[instantiation],
                )
            },
    {
        proof {
            old(self).lemma_stores();
        }
        let present = self.table.contains_key(&instantiation);
        if !present {
            let store = init();
            let slot = Slot::create(instantiation, store);
            self.table.insert(instantiation, slot);
            proof {
                self.lemma_stores();
                assert(self.stores() =~= old(self).stores().insert(instantiation, store));
            }
        }
    }

    /// Take exclusive hold of the instantiation's store.
    ///
    /// Between `acquire` and the matching `release` the caller owns the
    /// store outright; nothing else can reach it through the registry.
    pub fn acquire(&mut self, call_site: u64, instantiation: u64) -> (store: S)
        requires
            old(self).wf(),
            call_site == old(self).call_site(),
            old(self).stores().contains_key(instantiation),
        ensures
            final(self).wf(),
            final(self).call_site() == old(self).call_site(),
            store == old(self).stores()[instantiation],
            final(self).stores() == old(self).stores().remove(instantiation),
    {
        proof {
            old(self).lemma_stores();
        }
        let slot_opt = self.table.remove(&instantiation);
        match slot_opt {
            Some(slot) => {
                proof {
                    self.lemma_stores();
                    assert(self.stores() =~= old(self).stores().remove(instantiation));
                }
                slot.into_store(instantiation)
            },
            None => unreached(),
        }
    }

    /// Give the store back, under the same identity it was acquired with.
    pub fn release(&mut self, call_site: u64, instantiation: u64, store: S)
        requires
            old(self).wf(),
            call_site == old(self).call_site(),
        ensures
            final(self).wf(),
            final(self).call_site() == old(self).call_site(),
            final(self).stores() == old(self).stores().insert(instantiation, store),
    {
        proof {
            old(self).lemma_stores();
        }
        let slot = Slot::create(instantiation, store);
        self.table.insert(instantiation, slot);
        proof {
            self.lemma_stores();
            assert(self.stores() =~= old(self).stores().insert(instantiation, store));
        }
    }
}

} // verus!
