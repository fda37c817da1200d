//! The filename cache: each distinct snippet of code is given one artifact
//! name while its entry lives.

use crate::naming::{artifact_name, artifact_name_of};
use std::sync::atomic::{AtomicU64, Ordering};
use vstd::prelude::*;

verus! {

#[verifier::external_type_specification]
#[verifier::external_body]
#[verifier::reject_recursive_types(K)]
#[verifier::reject_recursive_types(V)]
#[verifier::reject_recursive_types(S)]
pub struct ExCache<K, V, S>(moka::sync::Cache<K, V, S>);

/// Relies on moka's `sync::Cache::new`: a cache that holds at most
/// `max_capacity` entries and evicts the least valued ones beyond that.
#[verifier::external_body]
fn new_entries(max_capacity: u64) -> moka::sync::Cache<String, u64> {
    moka::sync::Cache::new(max_capacity)
}

/// Relies on moka's `sync::Cache::get_with_by_ref`: the id stored under
/// `key`, or else the one `init` gives, stored first. Concurrent calls on
/// one absent key run a single `init` and all return its id.
#[verifier::external_body]
fn id_for(entries: &moka::sync::Cache<String, u64>, key: &str, counter: &AtomicU64) -> u64 {
    entries.get_with_by_ref(key, || next_id(counter))
}

/// A counter value that no earlier call returned, until the counter wraps.
fn next_id(counter: &AtomicU64) -> u64 {
    counter.fetch_add(1, Ordering::SeqCst)
}

/// Maps each submitted code text to the artifact name it was given, shared
/// by every concurrent caller.
pub struct FilenameCache {
    entries: moka::sync::Cache<String, u64>,
    counter: AtomicU64,
    capacity: u64,
}

impl FilenameCache {
    /// An empty cache that keeps at most `capacity` entries.
    pub fn new(capacity: u64) -> (r: FilenameCache)
        ensures
            r.capacity() == capacity,
    {
        FilenameCache { entries: new_entries(capacity), counter: AtomicU64::new(0), capacity }
    }

    /// The number of entries the cache keeps at most.
    pub closed spec fn capacity(&self) -> u64 {
        self.capacity
    }

    /// The number of entries the cache keeps at most.
    pub fn max_entries(&self) -> (r: u64)
        ensures
            r == self.capacity(),
    {
        self.capacity
    }

    /// The artifact name for `code`: the one it already has, or a fresh one
    /// built from the next counter value.
    pub fn resolve(&self, code: &str) -> (r: String)
        ensures
            exists|id: u64| r@ == artifact_name(id),
    {
        let id = id_for(&self.entries, code, &self.counter);
        artifact_name_of(id)
    }
}

} // verus!
