//! The deduplication cache: a set of recently seen fingerprints, bounded in
//! time and in size, kept by `moka`.
//!
//! It dampens repeated deliveries; it is no guarantee. A fingerprint that was
//! never recorded is never reported as seen. Whether one that was recorded is
//! still reported as seen depends on the clock and on what the cache has let
//! go of since, so that is not promised. The decision that follows a lookup
//! is [`after_dedup`](crate::reconcile::after_dedup).

use crate::reconcile::Fingerprint;
use moka::sync::Cache;
use vstd::prelude::*;

verus! {

#[verifier::external_type_specification]
#[verifier::external_body]
#[verifier::reject_recursive_types(K)]
#[verifier::reject_recursive_types(V)]
#[verifier::reject_recursive_types(S)]
pub struct ExCache<K, V, S>(Cache<K, V, S>);

/// How long a fingerprint is remembered, in seconds, unless told otherwise.
pub const DEFAULT_TTL_SECONDS: u64 = 600;

/// How many fingerprints are remembered at most, unless told otherwise.
pub const DEFAULT_CAPACITY: u64 = 1000;

/// The longest time to live that a cache can be built with: a thousand years
/// of 365 days, in seconds.
pub const MAX_TTL_SECONDS: u64 = 31_536_000_000;

/// The time to live that a cache was built with, in whole seconds, as the
/// cache's policy reports it; `None` for a cache that was built without one.
/// A cache keeps the policy it was built with.
pub uninterp spec fn cache_time_to_live(cache: Cache<(u64, u64), ()>) -> Option<u64>;

/// The number of entries that a cache was built to hold at most, as the
/// cache's policy reports it; `None` for a cache that was built without a
/// bound.
pub uninterp spec fn cache_max_capacity(cache: Cache<(u64, u64), ()>) -> Option<u64>;

/// The keys in the table of a cache, those included that have outlived their
/// time and have not been removed yet. The table changes only in calls on the
/// cache; a cache that is built holds no key.
pub uninterp spec fn cache_keys(cache: Cache<(u64, u64), ()>) -> Set<(u64, u64)>;

/// Builds a cache with `Cache::builder`, `time_to_live`, `max_capacity`,
/// `eviction_policy` and `build`. The policy is `EvictionPolicy::lru`, under
/// which every new key is admitted and the key that was used longest ago
/// makes room for it. The build refuses a time to live of more than a
/// thousand years. The cache that is built holds no key and reports the
/// time to live and the capacity that were given.
#[verifier::external_body]
fn build_cache(ttl_seconds: u64, max_capacity: u64) -> (cache: Cache<(u64, u64), ()>)
    requires
        ttl_seconds <= MAX_TTL_SECONDS,
    ensures
        cache_time_to_live(cache) == Some(ttl_seconds),
        cache_max_capacity(cache) == Some(max_capacity),
        cache_keys(cache) == Set::<(u64, u64)>::empty(),
{
    Cache::builder()
        .time_to_live(std::time::Duration::from_secs(ttl_seconds))
        .max_capacity(max_capacity)
        .eviction_policy(moka::policy::EvictionPolicy::lru())
        .build()
}

/// Calls `Cache::policy` and `Policy::time_to_live`, and gives the duration
/// in whole seconds.
#[verifier::external_body]
fn time_to_live_of(cache: &Cache<(u64, u64), ()>) -> (ttl: Option<u64>)
    ensures
        ttl == cache_time_to_live(*cache),
{
    cache.policy().time_to_live().map(|d| d.as_secs())
}

/// Calls `Cache::policy` and `Policy::max_capacity`.
#[verifier::external_body]
fn max_capacity_of(cache: &Cache<(u64, u64), ()>) -> (capacity: Option<u64>)
    ensures
        capacity == cache_max_capacity(*cache),
{
    cache.policy().max_capacity()
}

/// Calls `Cache::entry` and `or_insert`, which look the key up and insert it
/// where the lookup does not find it, and returns whether the lookup found
/// it, that is whether the entry is not fresh. The lookup finds a key only
/// where the table holds it. The call puts no key but its own into the
/// table, may remove others, and leaves the policy of the cache as it is.
/// It is made on a cache that nobody else can reach meanwhile, so that
/// nothing comes between the lookup and the insertion.
#[verifier::external_body]
fn present_or_insert(cache: &mut Cache<(u64, u64), ()>, key: (u64, u64)) -> (seen: bool)
    ensures
        seen ==> cache_keys(*old(cache)).contains(key),
        cache_keys(*final(cache)).subset_of(cache_keys(*old(cache)).insert(key)),
        cache_time_to_live(*final(cache)) == cache_time_to_live(*old(cache)),
        cache_max_capacity(*final(cache)) == cache_max_capacity(*old(cache)),
{
    !cache.entry(key).or_insert(()).is_fresh()
}

/// A set of recently seen fingerprints.
pub struct DedupCache {
    recent: Cache<(u64, u64), ()>,
}

impl DedupCache {
    /// For how many seconds the cache remembers a fingerprint.
    pub closed spec fn spec_time_to_live(&self) -> Option<u64> {
        cache_time_to_live(self.recent)
    }

    /// How many fingerprints the cache remembers at most.
    pub closed spec fn spec_max_capacity(&self) -> Option<u64> {
        cache_max_capacity(self.recent)
    }

    /// Whether the table of the cache holds the fingerprint. A fingerprint
    /// that is held may have outlived its time: it is then held and no longer
    /// counts as seen.
    pub closed spec fn holds(&self, fingerprint: Fingerprint) -> bool {
        cache_keys(self.recent).contains((fingerprint.repository_id, fingerprint.sender_id))
    }

    /// A cache that remembers a fingerprint for `ttl_seconds` and holds at
    /// most `max_capacity` of them. `None` where the time to live is longer
    /// than the cache can keep.
    pub fn new(ttl_seconds: u64, max_capacity: u64) -> (cache: Option<Self>)
        ensures
            cache is Some <==> ttl_seconds <= MAX_TTL_SECONDS,
            cache matches Some(c) ==> c.spec_time_to_live() == Some(ttl_seconds) && c.spec_max_capacity() == Some(
                max_capacity,
            ) && forall|f: Fingerprint| !c.holds(f),
    {
        if ttl_seconds <= MAX_TTL_SECONDS {
            Some(DedupCache { recent: build_cache(ttl_seconds, max_capacity) })
        } else {
            None
        }
    }

    /// A cache with the default time to live and capacity: a fingerprint is
    /// remembered for 600 seconds, and at most 1000 of them are.
    pub fn with_defaults() -> (cache: Self)
        ensures
            cache.spec_time_to_live() == Some(DEFAULT_TTL_SECONDS),
            cache.spec_max_capacity() == Some(DEFAULT_CAPACITY),
            forall|f: Fingerprint| !cache.holds(f),
    {
        DedupCache { recent: build_cache(DEFAULT_TTL_SECONDS, DEFAULT_CAPACITY) }
    }

    /// For how many seconds the cache remembers a fingerprint.
    pub fn time_to_live(&self) -> (ttl: Option<u64>)
        ensures
            ttl == self.spec_time_to_live(),
    {
        time_to_live_of(&self.recent)
    }

    /// How many fingerprints the cache remembers at most.
    pub fn max_capacity(&self) -> (capacity: Option<u64>)
        ensures
            capacity == self.spec_max_capacity(),
    {
        max_capacity_of(&self.recent)
    }

    /// Checks whether the fingerprint was seen recently, and records it if it
    /// was not. The cache is held exclusively for the call, so that the check
    /// and the recording are one step.
    ///
    /// A fingerprint is reported as seen only where the cache held it: one
    /// that was never recorded is never suppressed. The call records no
    /// fingerprint but its own, and leaves the limits of the cache as they
    /// are. Whether a fingerprint that was recorded is still reported as seen
    /// depends on the time that has passed and on what was recorded since.
    pub fn seen_or_record(&mut self, fingerprint: Fingerprint) -> (seen: bool)
        ensures
            seen ==> old(self).holds(fingerprint),
            forall|f: Fingerprint| final(self).holds(f) ==> old(self).holds(f) || f == fingerprint,
            final(self).spec_time_to_live() == old(self).spec_time_to_live(),
            final(self).spec_max_capacity() == old(self).spec_max_capacity(),
    {
        present_or_insert(&mut self.recent, (fingerprint.repository_id, fingerprint.sender_id))
    }
}

} // verus!
