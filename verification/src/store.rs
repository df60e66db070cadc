//! The cache-store contract and the two baseline backends.

use vstd::prelude::*;
use std::collections::BTreeMap;
use std::collections::HashMap;
use std::collections::hash_map::RandomState;
use std::hash::Hash;
use vstd::laws_cmp::obeys_cmp;
use std::borrow::Borrow;
use vstd::std_specs::hash::builds_valid_hashers;
use vstd::std_specs::hash::contains_borrowed_key;
use vstd::std_specs::hash::maps_borrowed_key_to_value;
use vstd::std_specs::hash::obeys_key_model;

verus! {

broadcast use vstd::std_specs::hash::group_hash_axioms, vstd::std_specs::btree::group_btree_axioms;

/// The contract a cache backend obeys.
///
/// A store is a mutable collection of key-to-result pairs.  `insert` offers a
/// pair to the store; the baseline backends record it unconditionally
/// (replace-or-add), while a custom backend may admit it conditionally, as
/// its `inserted` policy says.  `get` looks a key up without ever releasing
/// ownership of a stored result: it hands out a borrow, and duplicating the
/// result on a hit is the caller's business, one layer up.
pub trait MemoizationStore<K, R>: Sized {
    /// The key-to-result mapping the store currently holds.
    spec fn contents(&self) -> Map<K, R>;

    /// Whether the executable operations are known to agree with
    /// `contents`.  For the baseline backends this is the standard library's
    /// hashing model (for the exact-match backend) or ordering model (for
    /// the ordered backend) holding of the key type.
    spec fn dependable(&self) -> bool;

    /// The admission policy: the contents after the store is offered the
    /// pair `(key, value)`.  The baseline backends always record the pair;
    /// a conditional backend may leave the contents as they were.
    spec fn inserted(&self, key: K, value: R) -> Map<K, R>;

    /// Offer `(key, value)` to the store.  There is no failure return: a
    /// refusal to admit the pair is silent, and from the caller's point of
    /// view indistinguishable from an immediate eviction.
    fn insert(&mut self, key: K, value: R)
        ensures
            old(self).dependable() ==> final(self).dependable(),
            old(self).dependable() ==> final(self).contents() == old(self).inserted(key, value),
    ;

    /// Look `key` up: a borrow of the stored result on a hit, `None` on a
    /// miss.
    fn get(&self, key: &K) -> (result: Option<&R>)
        ensures
            self.dependable() ==> match result {
                Some(v) => self.contents().contains_key(*key) && *v == self.contents()[*key],
                None => !self.contents().contains_key(*key),
            },
    ;
}

/// The exact-match baseline backend: average constant-time insert and get,
/// keys compared by equality, no meaningful order.  Admission is
/// unconditional replace-or-add.
impl<K: Eq + Hash, R> MemoizationStore<K, R> for HashMap<K, R> {
    open spec fn contents(&self) -> Map<K, R> {
        self@
    }

    open spec fn dependable(&self) -> bool {
        obeys_key_model::<K>() && builds_valid_hashers::<RandomState>()
    }

    open spec fn inserted(&self, key: K, value: R) -> Map<K, R> {
        self@.insert(key, value)
    }

    fn insert(&mut self, key: K, value: R) {
        HashMap::insert(self, key, value);
    }

    fn get(&self, key: &K) -> (result: Option<&R>) {
        HashMap::get(self, key)
    }
}

/// The ordered baseline backend: logarithmic insert and get, keys held in
/// their canonical order.  Admission is unconditional replace-or-add.
impl<K: Ord, R> MemoizationStore<K, R> for BTreeMap<K, R> {
    open spec fn contents(&self) -> Map<K, R> {
        self@
    }

    open spec fn dependable(&self) -> bool {
        obeys_cmp::<K>()
    }

    open spec fn inserted(&self, key: K, value: R) -> Map<K, R> {
        self@.insert(key, value)
    }

    fn insert(&mut self, key: K, value: R) {
        BTreeMap::insert(self, key, value);
    }

    fn get(&self, key: &K) -> (result: Option<&R>) {
        BTreeMap::get(self, key)
    }
}

/// A conditional backend over the exact-match one: it admits only `Ok`
/// results and silently refuses `Err` ones, so a failure is never cached and
/// a later call with the same key computes again.
pub struct SuccessStore<K, T, E> {
    table: HashMap<K, Result<T, E>>,
}

impl<K: Eq + Hash, T, E> SuccessStore<K, T, E> {
    /// An empty store.
    pub fn new() -> (store: SuccessStore<K, T, E>)
        ensures
            store.contents() == Map::<K, Result<T, E>>::empty(),
    {
        SuccessStore { table: HashMap::new() }
    }
}

impl<K: Eq + Hash, T, E> Default for SuccessStore<K, T, E> {
    fn default() -> (store: SuccessStore<K, T, E>)
        ensures
            store.contents() == Map::<K, Result<T, E>>::empty(),
    {
        SuccessStore::new()
    }
}

impl<K: Eq + Hash, T, E> MemoizationStore<K, Result<T, E>> for SuccessStore<K, T, E> {
    closed spec fn contents(&self) -> Map<K, Result<T, E>> {
        self.table@
    }

    open spec fn dependable(&self) -> bool {
        obeys_key_model::<K>() && builds_valid_hashers::<RandomState>()
    }

    /// The admission policy: record a success, refuse a failure.
    open spec fn inserted(&self, key: K, value: Result<T, E>) -> Map<K, Result<T, E>> {
        if value is Ok {
            self.contents().insert(key, value)
        } else {
            self.contents()
        }
    }

    fn insert(&mut self, key: K, value: Result<T, E>) {
        if value.is_ok() {
            HashMap::insert(&mut self.table, key, value);
        }
    }

    fn get(&self, key: &K) -> (result: Option<&Result<T, E>>) {
        HashMap::get(&self.table, key)
    }
}

/// Look a key up by a borrowed view of it: `query` need not be the owned
/// key type `K`, only a form `K` can be borrowed as, so a caller can probe
/// the exact-match backend without materializing an owned key.
pub fn get_borrowed<'a, K, R, Q>(store: &'a HashMap<K, R>, query: &Q) -> (result: Option<&'a R>)
    where K: Borrow<Q> + Eq + Hash, Q: Eq + Hash + ?Sized,
    ensures
        obeys_key_model::<K>() && builds_valid_hashers::<RandomState>() ==> match result {
            Some(v) => maps_borrowed_key_to_value(store@, query, *v),
            None => !contains_borrowed_key(store@, query),
        },
{
    HashMap::get(store, query)
}

} // verus!
