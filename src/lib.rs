use vstd::prelude::*;

/// The key-value mapping and its model.
pub mod kv_map;
/// The shared store: the mapping behind a mutex.
pub mod store;
/// What sequences of writes leave a lookup to see.
pub mod laws;
/// Requests against the store and their replies.
pub mod handler;

verus! {

} // verus!
