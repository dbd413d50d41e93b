//! A store of values keyed by request fingerprint, each with an absolute
//! expiry instant. Expiry is lazy: an entry whose instant has come is kept
//! but never read.

use std::collections::HashMap;

use vstd::prelude::*;

verus! {

broadcast use vstd::std_specs::hash::group_hash_axioms;

/// A cached value and the instant (seconds since the epoch) from which on it
/// is no longer valid.
pub struct CacheEntry<V> {
    pub value: V,
    pub expires_at: u64,
}

/// The value stored under `key` if it is still valid at `now`.
pub open spec fn valid_entry<V>(entries: Map<u64, CacheEntry<V>>, key: u64, now: u64) -> Option<V> {
    if entries.contains_key(key) && now < entries[key].expires_at {
        Some(entries[key].value)
    } else {
        None
    }
}

/// Values keyed by fingerprint, with lazy time-based expiry.
pub struct ExpiringCache<V> {
    entries: HashMap<u64, CacheEntry<V>>,
}

impl<V> View for ExpiringCache<V> {
    type V = Map<u64, CacheEntry<V>>;

    closed spec fn view(&self) -> Map<u64, CacheEntry<V>> {
        self.entries@
    }
}

impl<V> ExpiringCache<V> {
    /// An empty cache.
    pub fn new() -> (r: Self)
        ensures
            r@ == Map::<u64, CacheEntry<V>>::empty(),
    {
        ExpiringCache { entries: HashMap::new() }
    }

    /// The value under `key` if its entry has not expired at `now`; an
    /// entry whose `expires_at <= now` reads as absent.
    pub fn get(&self, key: u64, now: u64) -> (r: Option<&V>)
        ensures
            match r {
                Some(v) => valid_entry(self@, key, now) == Some(*v),
                None => valid_entry(self@, key, now) is None,
            },
    {
        match self.entries.get(&key) {
            Some(e) => {
                if now < e.expires_at {
                    Some(&e.value)
                } else {
                    None
                }
            },
            None => None,
        }
    }

    /// Stores `value` under `key` until `expires_at`, replacing any entry.
    pub fn insert(&mut self, key: u64, value: V, expires_at: u64)
        ensures
            final(self)@ == old(self)@.insert(key, CacheEntry { value, expires_at }),
    {
        self.entries.insert(key, CacheEntry { value, expires_at });
    }
}

/// An entry stored until `t0 + d` reads back before `t0 + d` and is absent
/// at and after it, whatever the cache held before.
pub proof fn lemma_expiry<V>(entries: Map<u64, CacheEntry<V>>, key: u64, value: V, t0: u64, d: u64, t: u64)
    requires
        t0 + d <= u64::MAX,
    ensures
        t < t0 + d ==> valid_entry(
            entries.insert(key, CacheEntry { value, expires_at: (t0 + d) as u64 }),
            key,
            t,
        ) == Some(value),
        t >= t0 + d ==> valid_entry(
            entries.insert(key, CacheEntry { value, expires_at: (t0 + d) as u64 }),
            key,
            t,
        ) is None,
{
}

} // verus!
