use vstd::prelude::*;
use std::sync::{Arc, Mutex, MutexGuard};
use crate::kv_map::KvMap;

verus! {

#[verifier::external_type_specification]
#[verifier::external_body]
#[verifier::reject_recursive_types(T)]
pub struct ExMutex<T: ?Sized>(Mutex<T>);

#[verifier::external_type_specification]
#[verifier::external_body]
#[verifier::reject_recursive_types(T)]
pub struct ExMutexGuard<'a, T: ?Sized + 'a>(MutexGuard<'a, T>);

/// Relies on std::sync::Mutex::new: a fresh, unlocked and unpoisoned mutex.
#[verifier::external_body]
fn new_mutex(m: KvMap) -> (r: Mutex<KvMap>) {
    Mutex::new(m)
}

/// Relies on std::sync::Mutex::lock: blocks until the caller holds the mutex,
/// and reports `None` where an earlier holder panicked and left it poisoned.
#[verifier::external_body]
fn lock_mutex(m: &Mutex<KvMap>) -> (r: Option<MutexGuard<'_, KvMap>>) {
    m.lock().ok()
}

/// Relies on DerefMut for std::sync::MutexGuard: the guarded value, borrowed
/// for as long as the guard is held.
#[verifier::external_body]
fn guarded<'a, 'b>(g: &'a mut MutexGuard<'b, KvMap>) -> (r: &'a mut KvMap) {
    &mut **g
}

/// Why an operation on the store failed.
#[derive(PartialEq, Eq, Structural, Clone, Copy, Debug)]
pub enum StoreError {
    /// An earlier operation stopped inside the critical section and left the
    /// lock poisoned; the mapping is no longer trusted.
    StoreUnavailable,
}

/// The shared store: one mapping behind a mutex, so that each `get` and each
/// `set` runs whole with respect to every other. Clones share the mapping.
pub struct Store {
    inner: Arc<Mutex<KvMap>>,
}

impl Clone for Store {
    /// Another handle on the same mapping.
    fn clone(&self) -> (r: Store) {
        Store { inner: Arc::clone(&self.inner) }
    }
}

impl Store {
    /// A store with an empty mapping.
    pub fn new() -> (r: Store) {
        Store { inner: Arc::new(new_mutex(KvMap::new())) }
    }

    /// The value that `key` holds when this call takes the lock: `Ok(None)`
    /// where the key was never set, `Err(StoreUnavailable)` where the lock
    /// was poisoned.
    pub fn get(&self, key: &str) -> (r: Result<Option<String>, StoreError>)
    {
        let m: &Mutex<KvMap> = &self.inner;
        match lock_mutex(m) {
            Some(mut g) => {
                let map = guarded(&mut g);
                let r = map.get(key);
                Ok(r)
            },
            None => Err(StoreError::StoreUnavailable),
        }
    }

    /// Inserts or overwrites `key` with `value` while holding the lock.
    pub fn set(&self, key: String, value: String) -> (r: Result<(), StoreError>) {
        let m: &Mutex<KvMap> = &self.inner;
        match lock_mutex(m) {
            Some(mut g) => {
                let map = guarded(&mut g);
                map.set(key, value);
                Ok(())
            },
            None => Err(StoreError::StoreUnavailable),
        }
    }
}

} // verus!
