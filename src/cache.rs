use vstd::prelude::*;
use crate::models::DomainInfo;

verus! {

#[verifier::external_type_specification]
#[verifier::external_body]
#[verifier::reject_recursive_types(K)]
#[verifier::reject_recursive_types(V)]
#[verifier::reject_recursive_types(S)]
pub struct ExMokaCache<K, V, S>(moka::sync::Cache<K, V, S>);

/// The (key, record) pairs put into a cache since it was built or last
/// cleared. What a read returns is always one of them.
pub uninterp spec fn cache_pairs(c: moka::sync::Cache<String, DomainInfo>) -> Set<
    (Seq<char>, DomainInfo),
>;

/// The most entries a cache was built to hold.
pub uninterp spec fn cache_capacity(c: moka::sync::Cache<String, DomainInfo>) -> u64;

/// The seconds an entry lives after insertion, as the cache was built.
pub uninterp spec fn cache_ttl_secs(c: moka::sync::Cache<String, DomainInfo>) -> u64;

/// Most records a resolver keeps.
pub const CACHE_CAPACITY: u64 = 1000;

/// Seconds a record stays in the cache after it was put there.
pub const CACHE_TTL_SECS: u64 = 300;

/// Longest time to live the cache accepts: a thousand years of 365 days.
pub const MAX_TTL_SECS: u64 = 31_536_000_000;

/// Relies on moka's cache builder: a cache bounded by `capacity` entries
/// whose entries expire `ttl_secs` seconds after insertion. `build` panics on
/// a time to live over a thousand years.
#[verifier::external_body]
fn build_cache(capacity: u64, ttl_secs: u64) -> (r: moka::sync::Cache<String, DomainInfo>)
    requires
        ttl_secs <= MAX_TTL_SECS,
    ensures
        cache_pairs(r) == Set::<(Seq<char>, DomainInfo)>::empty(),
        cache_capacity(r) == capacity,
        cache_ttl_secs(r) == ttl_secs,
{
    moka::sync::Cache::builder().max_capacity(capacity).time_to_live(
        std::time::Duration::from_secs(ttl_secs),
    ).build()
}

/// Relies on moka::sync::Cache::get: a clone of a record inserted under
/// `key`, if one is there and has not expired or been evicted.
#[verifier::external_body]
fn cache_get(c: &moka::sync::Cache<String, DomainInfo>, key: &str) -> (r: Option<DomainInfo>)
    ensures
        r matches Some(v) ==> cache_pairs(*c).contains((key@, v)),
{
    c.get(key)
}

/// Relies on moka::sync::Cache::insert: the record is stored under `key`.
#[verifier::external_body]
fn cache_insert(c: &mut moka::sync::Cache<String, DomainInfo>, key: String, value: DomainInfo)
    ensures
        cache_pairs(*final(c)) == cache_pairs(*old(c)).insert((key@, value)),
        cache_capacity(*final(c)) == cache_capacity(*old(c)),
        cache_ttl_secs(*final(c)) == cache_ttl_secs(*old(c)),
{
    c.insert(key, value)
}

/// Relies on moka::sync::Cache::invalidate_all: no later read returns an
/// entry inserted before the call.
#[verifier::external_body]
fn cache_clear(c: &mut moka::sync::Cache<String, DomainInfo>)
    ensures
        cache_pairs(*final(c)) == Set::<(Seq<char>, DomainInfo)>::empty(),
        cache_capacity(*final(c)) == cache_capacity(*old(c)),
        cache_ttl_secs(*final(c)) == cache_ttl_secs(*old(c)),
{
    c.invalidate_all()
}

/// Resolved records by the exact query string, bounded in size, each kept
/// for a fixed time from insertion whatever the reads.
pub struct DomainCache {
    inner: moka::sync::Cache<String, DomainInfo>,
}

impl DomainCache {
    /// The pairs put in since the cache was built or last cleared.
    pub closed spec fn spec_pairs(&self) -> Set<(Seq<char>, DomainInfo)> {
        cache_pairs(self.inner)
    }

    pub closed spec fn spec_capacity(&self) -> u64 {
        cache_capacity(self.inner)
    }

    pub closed spec fn spec_ttl_secs(&self) -> u64 {
        cache_ttl_secs(self.inner)
    }

    /// A cache of the resolver's size and time to live.
    pub fn new() -> (r: Self)
        ensures
            r.spec_pairs() == Set::<(Seq<char>, DomainInfo)>::empty(),
            r.spec_capacity() == CACHE_CAPACITY,
            r.spec_ttl_secs() == CACHE_TTL_SECS,
    {
        DomainCache { inner: build_cache(CACHE_CAPACITY, CACHE_TTL_SECS) }
    }

    pub fn with_limits(capacity: u64, ttl_secs: u64) -> (r: Self)
        requires
            ttl_secs <= MAX_TTL_SECS,
        ensures
            r.spec_pairs() == Set::<(Seq<char>, DomainInfo)>::empty(),
            r.spec_capacity() == capacity,
            r.spec_ttl_secs() == ttl_secs,
    {
        DomainCache { inner: build_cache(capacity, ttl_secs) }
    }

    /// A record put in under `domain`, unless it has expired or been evicted.
    pub fn get(&self, domain: &str) -> (r: Option<DomainInfo>)
        ensures
            r matches Some(v) ==> self.spec_pairs().contains((domain@, v)),
    {
        cache_get(&self.inner, domain)
    }

    pub fn insert(&mut self, domain: String, info: DomainInfo)
        ensures
            final(self).spec_pairs() == old(self).spec_pairs().insert((domain@, info)),
            final(self).spec_capacity() == old(self).spec_capacity(),
            final(self).spec_ttl_secs() == old(self).spec_ttl_secs(),
    {
        cache_insert(&mut self.inner, domain, info)
    }

    pub fn clear(&mut self)
        ensures
            final(self).spec_pairs() == Set::<(Seq<char>, DomainInfo)>::empty(),
            final(self).spec_capacity() == old(self).spec_capacity(),
            final(self).spec_ttl_secs() == old(self).spec_ttl_secs(),
    {
        cache_clear(&mut self.inner)
    }
}

} // verus!
