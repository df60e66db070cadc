use michie::protocol::memoized_call;
use michie::registry::Registry;
use michie::slot::Slot;
use michie::store::get_borrowed;
use michie::store::MemoizationStore;
use michie::store::SuccessStore;
use std::collections::BTreeMap;
use std::collections::HashMap;

// Determinism on repeat: the second call with the same key returns the same
// value and does not run the computation again.
#[test]
fn repeated_call_hits_without_recomputing() {
    let mut registry: Registry<HashMap<u64, u64>> = Registry::new(0);
    let mut runs: usize = 0;
    let first = memoized_call(&mut registry, 0, 0, HashMap::new, 10u64, || {
        runs += 1;
        10 + 4
    });
    let second = memoized_call(&mut registry, 0, 0, HashMap::new, 10u64, || {
        runs += 1;
        10 + 4
    });
    assert_eq!(first, 14);
    assert_eq!(second, 14);
    assert_eq!(runs, 1);
}

// A hit returns the cached value even when a later computation would have
// produced something else: the body is simply not run again.
#[test]
fn hit_returns_cached_value() {
    let mut registry: Registry<HashMap<u64, u64>> = Registry::new(0);
    let first = memoized_call(&mut registry, 0, 0, HashMap::new, 1u64, || 100u64);
    let second = memoized_call(&mut registry, 0, 0, HashMap::new, 1u64, || 200u64);
    assert_eq!(first, 100);
    assert_eq!(second, 100);
}

// Per-instantiation isolation: two instantiations of one call site never
// share entries, even for structurally equal keys.
#[test]
fn instantiations_are_isolated() {
    let mut registry: Registry<HashMap<u64, u64>> = Registry::new(0);
    let at_first = memoized_call(&mut registry, 0, 1, HashMap::new, 7u64, || 111u64);
    let at_second = memoized_call(&mut registry, 0, 2, HashMap::new, 7u64, || 222u64);
    assert_eq!(at_first, 111);
    assert_eq!(at_second, 222);
    // and each instantiation still hits its own entry
    assert_eq!(
        memoized_call(&mut registry, 0, 1, HashMap::new, 7u64, || 0u64),
        111
    );
    assert_eq!(
        memoized_call(&mut registry, 0, 2, HashMap::new, 7u64, || 0u64),
        222
    );
}

// Borrowed-query equivalence: probing by a borrowed view of the key returns
// the same result as `get` with the owned key.
#[test]
fn borrowed_query_agrees_with_owned() {
    let mut store: HashMap<Box<u64>, u64> = HashMap::new();
    MemoizationStore::insert(&mut store, Box::new(5u64), 50u64);
    let owned_key = Box::new(5u64);
    let by_owned = MemoizationStore::get(&store, &owned_key).copied();
    let by_borrowed = get_borrowed(&store, &5u64).copied();
    assert_eq!(by_owned, Some(50));
    assert_eq!(by_borrowed, Some(50));
    assert_eq!(get_borrowed(&store, &6u64), None);
    let missing = Box::new(6u64);
    assert_eq!(MemoizationStore::get(&store, &missing), None);
}

// Conditional admission: a refused result is never cached, so the next call
// with the same key computes again; an admitted result is cached.
#[test]
fn refused_results_are_recomputed() {
    let mut registry: Registry<SuccessStore<u64, u64, String>> = Registry::new(0);
    let mut runs: usize = 0;
    for _ in 0..2 {
        let got = memoized_call(&mut registry, 0, 0, SuccessStore::new, 4u64, || {
            runs += 1;
            Err(String::from("even"))
        });
        assert_eq!(got, Err(String::from("even")));
    }
    assert_eq!(runs, 2);
    runs = 0;
    for _ in 0..2 {
        let got = memoized_call(&mut registry, 0, 0, SuccessStore::new, 3u64, || {
            runs += 1;
            Ok(1u64)
        });
        assert_eq!(got, Ok(1));
    }
    assert_eq!(runs, 1);
}

// The ordered baseline backend runs the same protocol.
#[test]
fn ordered_backend_memoizes() {
    let mut registry: Registry<BTreeMap<i64, i64>> = Registry::new(0);
    assert_eq!(
        memoized_call(&mut registry, 0, 0, BTreeMap::new, -3i64, || -6i64),
        -6
    );
    assert_eq!(
        memoized_call(&mut registry, 0, 0, BTreeMap::new, -3i64, || 0i64),
        -6
    );
}

// Inserting an existing key supersedes its prior result: last write wins.
#[test]
fn insert_supersedes_prior_result() {
    let mut exact: HashMap<u8, u8> = HashMap::new();
    MemoizationStore::insert(&mut exact, 1u8, 10u8);
    MemoizationStore::insert(&mut exact, 1u8, 20u8);
    assert_eq!(MemoizationStore::get(&exact, &1u8).copied(), Some(20));
    let mut ordered: BTreeMap<u8, u8> = BTreeMap::new();
    MemoizationStore::insert(&mut ordered, 1u8, 10u8);
    MemoizationStore::insert(&mut ordered, 1u8, 20u8);
    assert_eq!(MemoizationStore::get(&ordered, &1u8).copied(), Some(20));
}

// A failure result is refused by the conditional backend's own insert.
#[test]
fn success_store_refuses_failures() {
    let mut store: SuccessStore<u8, u8, u8> = SuccessStore::new();
    MemoizationStore::insert(&mut store, 1u8, Err(9u8));
    assert_eq!(MemoizationStore::get(&store, &1u8), None);
    MemoizationStore::insert(&mut store, 1u8, Ok(7u8));
    assert_eq!(MemoizationStore::get(&store, &1u8), Some(&Ok(7u8)));
}

// The registry runs an initializer exactly once per instantiation.
#[test]
fn resolve_runs_initializer_exactly_once() {
    let mut registry: Registry<HashMap<u64, u64>> = Registry::new(0);
    let mut built: usize = 0;
    registry.resolve(0, 1, || {
        built += 1;
        HashMap::new()
    });
    registry.resolve(0, 1, || {
        built += 1;
        HashMap::new()
    });
    assert_eq!(built, 1);
    registry.resolve(0, 2, || {
        built += 1;
        HashMap::new()
    });
    assert_eq!(built, 2);
}

// Acquire hands out the instantiation's store; release puts it back.
#[test]
fn acquire_and_release_round_trip() {
    let mut registry: Registry<HashMap<u64, u64>> = Registry::new(0);
    registry.resolve(0, 1, HashMap::new);
    let mut store = registry.acquire(0, 1);
    MemoizationStore::insert(&mut store, 8u64, 80u64);
    registry.release(0, 1, store);
    let store = registry.acquire(0, 1);
    assert_eq!(MemoizationStore::get(&store, &8u64).copied(), Some(80));
    registry.release(0, 1, store);
}

// A slot hands back exactly the store it was created with, under the
// identity it was created under.
#[test]
fn slot_round_trip() {
    let mut store: HashMap<u64, u64> = HashMap::new();
    MemoizationStore::insert(&mut store, 2u64, 4u64);
    let slot = Slot::create(17, store);
    assert_eq!(MemoizationStore::get(slot.open(17), &2u64).copied(), Some(4));
    let store = slot.into_store(17);
    assert_eq!(MemoizationStore::get(&store, &2u64).copied(), Some(4));
}
