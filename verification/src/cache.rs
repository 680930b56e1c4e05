//! Cache strategies for the parameter client: the capability contract, the
//! no-op strategy, and the unbounded strategy backed by a store behind a
//! reader/writer lock that all clones of a client share.

use vstd::prelude::*;
use vstd::rwlock::RwLock;
use vstd::rwlock::RwLockPredicate;
use std::sync::Arc;
use crate::store::CacheStore;
use mini_moka::sync::Cache as MokaCache;
use crate::client::Client;

verus! {

/// The capability every cache strategy implements: construct empty, look up
/// a key, and best-effort upsert.
pub trait Cache: Sized {
    /// Construct a cache with no entries and strategy-specific defaults.
    fn new_cache() -> Self;

    /// The cached value for `key`, if any; no side effects on a miss.
    fn get(&self, key: &str) -> Option<String>;

    /// Best-effort upsert: overwrites a prior value for the same key; a
    /// failure to store is swallowed, never surfaced.
    fn set(&self, key: &str, value: &str);
}

/// The null strategy: every lookup misses and every insert is discarded, so
/// a client with this strategy always consults its source.
impl Cache for () {
    fn new_cache() -> Self {
    }

    /// Always a miss.
    fn get(&self, _key: &str) -> (r: Option<String>)
        ensures
            r is None,
    {
        None
    }

    /// Discards the entry.
    fn set(&self, _key: &str, _value: &str) {
    }
}

/// The invariant on the store behind the shared lock: well-formed, that is,
/// with pairwise-distinct keys.
pub struct StoreInv;

impl RwLockPredicate<CacheStore> for StoreInv {
    open spec fn inv(self, v: CacheStore) -> bool {
        v.wf()
    }
}

/// The unbounded strategy: one key-value store shared by every clone,
/// guarded by a reader/writer lock; entries are never evicted.
pub struct EternalCache {
    store: Arc<RwLock<CacheStore, StoreInv>>,
}

impl Clone for EternalCache {
    /// A clone is a handle to the same shared store, not a copy of it.
    fn clone(&self) -> (r: Self)
        ensures
            r == *self,
    {
        EternalCache { store: arc_clone(&self.store) }
    }
}

/// Relies on `std::sync::Arc::clone`: the clone is a handle to the same
/// allocation as the original.
#[verifier::external_body]
fn arc_clone(store: &Arc<RwLock<CacheStore, StoreInv>>) -> (r: Arc<
    RwLock<CacheStore, StoreInv>,
>)
    ensures
        r == *store,
{
    Arc::clone(store)
}

impl EternalCache {
    /// Construct the shared store from an initial content.
    pub fn from_store(store: CacheStore) -> (r: EternalCache)
        requires
            store.wf(),
    {
        EternalCache { store: Arc::new(RwLock::new(store, Ghost(StoreInv))) }
    }

    /// Take the store out for exclusive access; every other reader and
    /// writer waits until the handle releases it.
    pub fn acquire_store(&self) -> (r: (
        CacheStore,
        vstd::rwlock::WriteHandle<'_, CacheStore, StoreInv>,
    ))
        ensures
            r.0.wf(),
            r.1.rwlock() == *self.lock(),
    {
        self.store.acquire_write()
    }

    /// The lock guarding the shared store.
    pub closed spec fn lock(&self) -> &RwLock<CacheStore, StoreInv> {
        &*self.store
    }
}

impl Cache for EternalCache {
    fn new_cache() -> Self {
        EternalCache::from_store(CacheStore::new())
    }

    /// Acquires the read side of the lock, copies the value out, releases.
    fn get(&self, key: &str) -> Option<String> {
        let handle = self.store.acquire_read();
        let r = handle.borrow().lookup(key);
        handle.release_read();
        r
    }

    /// Acquires the write side of the lock, upserts, releases.
    fn set(&self, key: &str, value: &str) {
        let (mut store, handle) = self.store.acquire_write();
        store.insert(key, value);
        handle.release_write(store);
    }
}

/// The expiring bounded strategy: a concurrent cache with a fixed maximum
/// entry count and a fixed time-to-live, both set at construction; eviction
/// is delegated entirely to the underlying structure.
pub type ExpireCache = MokaCache<String, String>;

/// A client with the unbounded shared-map cache.
pub type CachedClient = Client<EternalCache>;

/// A client with the expiring bounded cache.
pub type ExpireCachedClient = Client<ExpireCache>;

/// The concurrent bounded cache type, held behind trusted calls; what it
/// currently holds depends on the clock, so no contract names its contents.
#[verifier::external_type_specification]
#[verifier::external_body]
#[verifier::reject_recursive_types(K)]
#[verifier::reject_recursive_types(V)]
#[verifier::reject_recursive_types(S)]
pub struct ExMokaCache<K, V, S>(MokaCache<K, V, S>);

/// The maximum entry count an expiring cache was built with.
pub uninterp spec fn expire_capacity(cache: ExpireCache) -> u64;

/// The time-to-live, in seconds, an expiring cache was built with.
pub uninterp spec fn expire_ttl_secs(cache: ExpireCache) -> u64;

/// Relies on `mini_moka::sync::CacheBuilder`: builds a cache bounded to
/// `max_entries` resident entries whose entries expire `ttl_secs` seconds
/// after insertion. The builder panics on a time-to-live over a thousand
/// years, which the precondition rules out.
#[verifier::external_body]
pub(crate) fn moka_new(max_entries: u64, ttl_secs: u64) -> (r: ExpireCache)
    requires
        ttl_secs < 30_000_000_000,
    ensures
        expire_capacity(r) == max_entries,
        expire_ttl_secs(r) == ttl_secs,
{
    MokaCache::builder()
        .max_capacity(max_entries)
        .time_to_live(std::time::Duration::from_secs(ttl_secs))
        .build()
}

/// Relies on `mini_moka::sync::Cache::get`: a clone of the value currently
/// resident for the key, if any; expired entries are not returned.
#[verifier::external_body]
fn moka_get(cache: &ExpireCache, key: &str) -> Option<String> {
    cache.get(&key.to_owned())
}

/// Relies on `mini_moka::sync::Cache::insert`: upserts the pair; if the key
/// is present the value is updated.
#[verifier::external_body]
fn moka_insert(cache: &ExpireCache, key: &str, value: &str) {
    cache.insert(key.to_owned(), value.to_owned());
}

impl Cache for ExpireCache {
    /// Strategy defaults: at most 32 resident entries, sixty-second
    /// time-to-live.
    fn new_cache() -> (r: Self)
        ensures
            expire_capacity(r) == 32,
            expire_ttl_secs(r) == 60,
    {
        moka_new(32, 60)
    }

    /// Delegates to the underlying structure's lookup.
    fn get(&self, key: &str) -> Option<String> {
        moka_get(self, key)
    }

    /// Delegates to the underlying structure's upsert.
    fn set(&self, key: &str, value: &str) {
        moka_insert(self, key, value);
    }
}

} // verus!
