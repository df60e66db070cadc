//! The lookup/compute/insert protocol run on every memoized invocation.

use vstd::prelude::*;
use crate::registry::Registry;
use crate::store::MemoizationStore;
use vstd::pervasive::cloned;

verus! {

/// What one protocol round does to the consulted store and to the caller,
/// stated from the store `before` the round, the key, the computation, the
/// value handed back and the store `after` the round.
///
/// On a hit the caller receives a duplicate of the cached value and the
/// store is left as it was; the computation is not run.  On a miss the
/// computation's output is handed back, and the store's new contents are
/// whatever its admission policy makes of being offered the key and a
/// duplicate of that output.
pub open spec fn round<K, R: Clone, S, FBody>(
    before: S,
    key: K,
    compute: FBody,
    result: R,
    after: S,
) -> bool where S: MemoizationStore<K, R>, FBody: FnOnce() -> R {
    &&& after.dependable()
    &&& if before.contents().contains_key(key) {
        &&& cloned::<R>(before.contents()[key], result)
        &&& after == before
    } else {
        &&& compute.ensures((), result)
        &&& exists|dup: R|
            cloned::<R>(result, dup) && after.contents() == #[trigger] before.inserted(key, dup)
    }
}

/// One invocation of a memoized call: resolve the slot for
/// `(call_site, instantiation)`, creating it with `init` if this is the
/// first invocation; look `key` up in its store; on a hit hand back a
/// duplicate of the cached value; on a miss run `compute` with no hold on
/// the store, offer its output to the store, and hand the output back.
///
/// The last two conditions say what the invocation means for the consulted
/// store, through [`round`]; every other instantiation's store is untouched,
/// whatever the key — caching under one instantiation never affects lookups
/// under another.
///
/// Nothing coalesces overlapping invocations: the store is let go before
/// `compute` runs, so in a process where rounds interleave, several may miss
/// on one key and each offer its own output, the last offer winning.  The
/// protocol is therefore meant for pure or idempotent computations.
pub fn memoized_call<K, R, S, FInit, FBody>(
    registry: &mut Registry<S>,
    call_site: u64,
    instantiation: u64,
    init: FInit,
    key: K,
    compute: FBody,
) -> (result: R) where
    R: Clone,
    S: MemoizationStore<K, R>,
    FInit: FnOnce() -> S,
    FBody: FnOnce() -> R,
    requires
        old(registry).wf(),
        call_site == old(registry).call_site(),
        init.requires(()),
        compute.requires(()),
        forall|s: S| init.ensures((), s) ==> #[trigger] s.dependable(),
        old(registry).stores().contains_key(instantiation)
            ==> old(registry).stores()[instantiation].dependable(),
    ensures
        final(registry).wf(),
        final(registry).call_site() == old(registry).call_site(),
        final(registry).stores().contains_key(instantiation),
        forall|other: u64|
            other != instantiation ==> #[trigger] final(registry).stores().contains_key(other)
                == old(registry).stores().contains_key(other),
        forall|other: u64|
            other != instantiation && old(registry).stores().contains_key(other)
                ==> #[trigger] final(registry).stores()[other]
                == old(registry).stores()[other],
        old(registry).stores().contains_key(instantiation) ==> round(
            old(registry).stores()[instantiation],
            key,
            compute,
            result,
            final(registry).stores()[instantiation],
        ),
        !old(registry).stores().contains_key(instantiation) ==> exists|created: S|
            {
                &&& #[trigger] init.ensures((), created)
                &&& round(created, key, compute, result, final(registry).stores()[instantiation])
            },
{
    registry.resolve(call_site, instantiation, init);
    let ghost consulted = registry.stores()[instantiation];
    let store = registry.acquire(call_site, instantiation);
    let cached: Option<R> = match store.get(&key) {
        Some(value) => Some(value.clone()),
        None => None,
    };
    registry.release(call_site, instantiation, store);
    proof {
        assert(registry.stores() =~= old(registry).stores().insert(instantiation, consulted));
    }
    match cached {
        Some(hit) => hit,
        None => {
            let computed = compute();
            let duplicate = computed.clone();
            let mut store = registry.acquire(call_site, instantiation);
            store.insert(key, duplicate);
            registry.release(call_site, instantiation, store);
            computed
        },
    }
}

} // verus!
