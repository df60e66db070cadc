//! The guarantees the runtime gives, each proved from the contracts alone.

use vstd::prelude::*;
use crate::protocol::round;
use crate::store::MemoizationStore;
use vstd::pervasive::cloned;
use vstd::std_specs::hash::contains_borrowed_key;
use vstd::std_specs::hash::maps_borrowed_key_to_value;

verus! {

broadcast use vstd::std_specs::hash::group_hash_axioms;

/// Determinism on repeat: two protocol rounds with the same key hand back
/// equal values, when the computation is deterministic, duplicating a
/// result yields an equal value, and the store's admission policy either
/// records exactly the offered pair or refuses it.  A store whose policy
/// records something other than what it is offered is outside this law.
///
/// On the second round the store already holds the key (or refused it, in
/// which case the deterministic computation runs again), so the value handed
/// back cannot change.  The hit branch of [`round`] does not mention the
/// computation at all: a hit never runs it.
pub proof fn lemma_determinism_on_repeat<K, R: Clone, S, FBody>(
    s0: S,
    s1: S,
    s2: S,
    key: K,
    compute: FBody,
    r1: R,
    r2: R,
) where S: MemoizationStore<K, R>, FBody: FnOnce() -> R
    requires
        forall|a: R, b: R| #[trigger] cloned::<R>(a, b) ==> a == b,
        forall|a: R, b: R|
            compute.ensures((), a) && compute.ensures((), b) ==> a == b,
        forall|v: R| #[trigger] s0.inserted(key, v) == s0.contents().insert(key, v)
            || s0.inserted(key, v) == s0.contents(),
        round(s0, key, compute, r1, s1),
        round(s1, key, compute, r2, s2),
    ensures
        r1 == r2,
{
    if s0.contents().contains_key(key) {
        assert(r1 == s0.contents()[key]);
        assert(s1 == s0);
        assert(r2 == s1.contents()[key]);
    } else {
        let dup = choose|dup: R|
            cloned::<R>(r1, dup) && s1.contents() == #[trigger] s0.inserted(key, dup);
        assert(dup == r1);
        if s1.contents().contains_key(key) {
            assert(s1.contents() == s0.contents().insert(key, dup));
            assert(s1.contents()[key] == r1);
            assert(r2 == s1.contents()[key]);
        } else {
            assert(compute.ensures((), r2));
        }
    }
}

/// After a round whose offer the store records, the key is present and
/// holds the value the round handed back: a later round with that key is a
/// hit, and the hit branch of [`round`] never runs the computation.
pub proof fn lemma_recorded_key_hits<K, R: Clone, S, FBody>(
    s0: S,
    s1: S,
    key: K,
    compute: FBody,
    r1: R,
) where S: MemoizationStore<K, R>, FBody: FnOnce() -> R
    requires
        forall|a: R, b: R| #[trigger] cloned::<R>(a, b) ==> a == b,
        forall|v: R| #[trigger] s0.inserted(key, v) == s0.contents().insert(key, v),
        round(s0, key, compute, r1, s1),
    ensures
        s1.contents().contains_key(key),
        s1.contents()[key] == r1,
{
    if !s0.contents().contains_key(key) {
        let dup = choose|dup: R|
            cloned::<R>(r1, dup) && s1.contents() == #[trigger] s0.inserted(key, dup);
        assert(s1.contents() == s0.contents().insert(key, dup));
    }
}

/// Borrowed-query equivalence, for every backend implementing the store
/// contract: a lookup through any borrow of a key agrees with the store's
/// contents at the owned key, so two lookups through any two borrows of
/// equal keys return the same result.
pub proof fn lemma_borrowed_query_agreement<K, R, S: MemoizationStore<K, R>>(
    store: S,
    query1: &K,
    query2: &K,
    r1: Option<&R>,
    r2: Option<&R>,
)
    requires
        store.dependable(),
        *query1 == *query2,
        call_ensures(S::get, (&store, query1), r1),
        call_ensures(S::get, (&store, query2), r2),
    ensures
        match (r1, r2) {
            (Some(v1), Some(v2)) => *v1 == *v2 && store.contents().contains_key(*query1)
                && *v1 == store.contents()[*query1],
            (None, None) => !store.contents().contains_key(*query1),
            _ => false,
        },
{
}

/// Borrowed-query equivalence for the exact-match backend under a boxed
/// key: probing by the borrowed inner view finds exactly the owned boxed
/// key's entry.  This resolves the opaque borrowed-lookup predicates in the
/// contract of [`crate::store::get_borrowed`] for that pairing of key and
/// query.
pub proof fn lemma_boxed_query_equivalence<K, R>(contents: Map<Box<K>, R>, view: &K, value: R)
    ensures
        contains_borrowed_key::<Box<K>, R, K>(contents, view) <==> contents.contains_key(
            Box::new(*view),
        ),
        maps_borrowed_key_to_value::<Box<K>, R, K>(contents, view, value) <==> {
            &&& contents.contains_key(Box::new(*view))
            &&& contents[Box::new(*view)] == value
        },
{
}

/// Conditional admission: when a store refuses a class of results, a round
/// whose computed result falls in that class leaves nothing behind for a
/// previously unseen key — no later lookup of that key can hit, and a later
/// round with that key runs the computation again.
pub proof fn lemma_conditional_admission<K, R: Clone, S, FBody>(
    s0: S,
    s1: S,
    key: K,
    compute: FBody,
    r1: R,
    refused: spec_fn(R) -> bool,
) where S: MemoizationStore<K, R>, FBody: FnOnce() -> R
    requires
        !s0.contents().contains_key(key),
        refused(r1),
        forall|v: R| #[trigger] cloned::<R>(r1, v) ==> refused(v),
        forall|v: R| #[trigger] refused(v) ==> s0.inserted(key, v) == s0.contents(),
        round(s0, key, compute, r1, s1),
    ensures
        !s1.contents().contains_key(key),
        forall|r: Option<&R>| #[trigger]
            call_ensures(S::get, (&s1, &key), r) ==> r is None,
        forall|r2: R, s2: S| #[trigger] round(s1, key, compute, r2, s2) ==> compute.ensures(
            (),
            r2,
        ),
{
    let dup = choose|dup: R|
        cloned::<R>(r1, dup) && s1.contents() == #[trigger] s0.inserted(key, dup);
    assert(refused(dup));
    assert(s1.contents() == s0.contents());
}

} // verus!
