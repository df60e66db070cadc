//! A per-call-site memoization runtime.
//!
//! A memoized computation is identified by a call site and, for generic
//! functions, by the instantiation bound at that call site.  Each such pair
//! owns one cache store.  The pieces, leaf first:
//!
//! - [`store::MemoizationStore`]: the contract a cache backend obeys
//!   (`insert` offers a pair to the backend's admission policy, `get` looks a
//!   key up), with the two baseline backends: `HashMap` (exact match) and
//!   `BTreeMap` (ordered).
//! - [`slot::Slot`]: owns one store, tagged with the identity of the
//!   instantiation it was created for; it is only ever opened under that same
//!   identity.
//! - [`registry::Registry`]: the per-call-site table from instantiation
//!   identity to slot; a slot is created lazily, by running a caller-supplied
//!   initializer exactly once.
//! - [`protocol::memoized_call`]: the lookup/compute/insert protocol run on
//!   every invocation of a memoized function.
//! - [`laws`]: proofs of the properties the runtime guarantees.

pub mod laws;
pub mod protocol;
pub mod registry;
pub mod slot;
pub mod store;
