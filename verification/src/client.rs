//! The parameter client: a read-through cache in front of a remote key
//! lookup service, with a mock mode that answers from an injected map and
//! from the process environment.
//!
//! A lookup runs in steps. [`Client::get_step`] consults the cache and
//! decides what to do next; on a miss the caller performs the requested
//! side effect (read two environment variables, or query the remote
//! service) and hands the outcome to [`finish_env`] or
//! [`Client::finish_remote`], which produce the final result and, on a
//! successful remote answer, populate the cache. The asynchronous driver
//! that performs the remote call lives outside this crate; every decision
//! lives here.

use vstd::prelude::*;
use aws_sdk_ssm::Client as SsmSdkClient;
use aws_sdk_ssm::Error as SsmSdkError;
use crate::cache::Cache;
use crate::cache::CachedClient;
use crate::cache::EternalCache;
use crate::cache::ExpireCache;
use crate::cache::ExpireCachedClient;
use crate::cache::StoreInv;
use crate::cache::expire_capacity;
use crate::cache::expire_ttl_secs;
use crate::cache::moka_new;
use crate::store::CacheStore;

verus! {

/// The remote service client type, held opaquely; all calls through it are
/// made by the I/O driver, never here.
#[verifier::external_type_specification]
#[verifier::external_body]
pub struct ExSsmClient(SsmSdkClient);

/// The remote service's unified error type, held opaquely and surfaced to
/// callers unchanged.
#[verifier::external_type_specification]
#[verifier::external_body]
pub struct ExSsmError(SsmSdkError);

/// Why a lookup failed.
#[derive(Debug)]
pub enum Error {
    /// The key is absent from cache, mock source, environment and remote
    /// store alike; expected in normal operation.
    NotFound,
    /// Any remote failure other than "parameter not found", carrying the
    /// underlying cause unchanged.
    Ssm(Box<SsmSdkError>),
}

impl Error {
    /// True exactly on the not-found variant.
    pub fn is_not_found(&self) -> (r: bool)
        ensures
            r == (*self is NotFound),
    {
        matches!(self, Error::NotFound)
    }
}

/// What to do next for a lookup, decided from the cache's answer.
pub enum GetStep {
    /// The cache held the value: return it, no further call is made.
    Hit(String),
    /// Mock mode, cache miss: read the environment under the verbatim name,
    /// then under the normalized name.
    AskEnv(String, String),
    /// Live mode, cache miss: query the remote service for this key, with
    /// decryption requested.
    AskRemote(String),
}

/// What a single remote lookup attempt came back with, as handed to
/// [`Client::finish_remote`] by the I/O driver.
pub enum RemoteReply {
    /// The service answered; the payload is the response's value field.
    Answered(Option<String>),
    /// The service reported that the parameter does not exist.
    MissingParameter,
    /// Any other failure, carried unchanged.
    Failed(Box<SsmSdkError>),
}

/// The parameter client. With a transport it queries the remote service on
/// a cache miss; without one it is in mock mode and consults the injected
/// map and the process environment instead.
#[derive(Clone)]
pub struct Client<C = ()> {
    pub(crate) ssm: Option<SsmSdkClient>,
    pub(crate) cache: C,
}

impl<C> Client<C> {
    /// The transport handle this client holds, if any.
    pub closed spec fn spec_transport(&self) -> Option<SsmSdkClient> {
        self.ssm
    }

    /// Mock mode: no transport is held.
    pub closed spec fn spec_is_mock(&self) -> bool {
        self.spec_transport() is None
    }

    /// The owned cache strategy.
    pub closed spec fn spec_cache(&self) -> C {
        self.cache
    }

    /// Whether this client is in mock mode.
    pub fn is_mock(&self) -> (r: bool)
        ensures
            r == self.spec_is_mock(),
    {
        self.ssm.is_none()
    }

    /// The raw service client: the very transport handle this client was
    /// constructed over. Calling this in mock mode is a programming
    /// mistake, ruled out here by the precondition; the unverified
    /// counterpart of this accessor fails fatally instead.
    pub fn raw_client(&self) -> (r: &SsmSdkClient)
        requires
            !self.spec_is_mock(),
        ensures
            self.spec_transport() == Some(*r),
    {
        self.ssm.as_ref().unwrap()
    }
}

impl Client {
    /// A live client over the given service client, without a cache.
    pub fn from_ssm_client(ssm: SsmSdkClient) -> (r: Client)
        ensures
            !r.spec_is_mock(),
            r.spec_transport() == Some(ssm),
    {
        Client { ssm: Some(ssm), cache: () }
    }

    /// A mock client without a cache: lookups fall through to the process
    /// environment.
    pub fn mock() -> (r: Client)
        ensures
            r.spec_is_mock(),
    {
        Client { ssm: None, cache: () }
    }
}

impl<C: Cache> Client<C> {
    /// Consult the cache and decide the next step of a lookup for `key`.
    pub fn get_step(&self, key: &str) -> (r: GetStep)
        ensures
            self.spec_is_mock() ==> !(r is AskRemote),
            !self.spec_is_mock() ==> !(r is AskEnv),
            r matches GetStep::AskEnv(p, n) ==> p@ == key@ && n@ == normalized_key(key@),
            r matches GetStep::AskRemote(k) ==> k@ == key@,
    {
        plan_lookup(self.cache.get(key), self.is_mock(), key)
    }

    /// Finish a lookup that went to the remote service: unwrap a present
    /// value and cache it, treat an answer without a value and a missing
    /// parameter as not found, and surface any other failure unchanged.
    /// The two failure kinds are never conflated.
    pub fn finish_remote(&self, key: &str, reply: RemoteReply) -> (r: Result<String, Error>)
        ensures
            reply matches RemoteReply::Answered(Some(v)) ==> r == Ok::<String, Error>(v),
            reply == RemoteReply::Answered(None::<String>) ==> r == Err::<String, Error>(
                Error::NotFound,
            ),
            reply == RemoteReply::MissingParameter ==> r == Err::<String, Error>(Error::NotFound),
            reply matches RemoteReply::Failed(e) ==> r == Err::<String, Error>(Error::Ssm(e)),
            r is Ok <==> reply matches RemoteReply::Answered(Some(_)),
            (r matches Err(e) && e is Ssm) <==> reply is Failed,
    {
        match reply {
            RemoteReply::Answered(Some(v)) => {
                self.cache.set(key, v.as_str());
                Ok(v)
            },
            RemoteReply::Answered(None) => Err(Error::NotFound),
            RemoteReply::MissingParameter => Err(Error::NotFound),
            RemoteReply::Failed(e) => Err(Error::Ssm(e)),
        }
    }

    /// Seed the cache directly, bypassing any remote fetch.
    pub fn insert_to_cache(&self, key: &str, value: &str) {
        self.cache.set(key, value);
    }

    /// The owned cache strategy.
    pub fn get_cache_store(&self) -> (r: &C)
        ensures
            *r == self.spec_cache(),
    {
        &self.cache
    }
}

/// Decide the next step of a lookup from the cache's answer: a cache hit is
/// returned at once, so no environment read and no remote call happens for
/// it; only a miss goes on to the mock sources or the remote service.
pub fn plan_lookup(cached: Option<String>, mock: bool, key: &str) -> (r: GetStep)
    ensures
        cached matches Some(v) ==> r == GetStep::Hit(v),
        cached is None && mock ==> (r matches GetStep::AskEnv(p, n) && p@ == key@ && n@
            == normalized_key(key@)),
        cached is None && !mock ==> (r matches GetStep::AskRemote(k) && k@ == key@),
{
    match cached {
        Some(v) => GetStep::Hit(v),
        None => {
            if mock {
                GetStep::AskEnv(key.to_owned(), normalize_key(key))
            } else {
                GetStep::AskRemote(key.to_owned())
            }
        },
    }
}

/// Finish a mock-mode lookup from the two environment answers: the value
/// under the verbatim name wins, then the one under the normalized name;
/// with neither, the key is not found.
pub fn finish_env(primary: Option<String>, fallback: Option<String>) -> (r: Result<String, Error>)
    ensures
        primary matches Some(v) ==> r == Ok::<String, Error>(v),
        primary is None && fallback is Some ==> r == Ok::<String, Error>(fallback->0),
        primary is None && fallback is None ==> r == Err::<String, Error>(Error::NotFound),
        r is Err <==> (primary is None && fallback is None),
{
    match primary {
        Some(v) => Ok(v),
        None => match fallback {
            Some(v) => Ok(v),
            None => Err(Error::NotFound),
        },
    }
}

/// What upper-casing by the standard library returns; the result depends on
/// the characters alone.
pub uninterp spec fn upper_of(s: Seq<char>) -> Seq<char>;

/// The path separator and the hyphen become underscores; every other
/// character is kept.
pub open spec fn replace_sep(s: Seq<char>) -> Seq<char> {
    s.map_values(|c: char| if c == '/' || c == '-' { '_' } else { c })
}

/// The fallback environment-variable name for a key: separators and
/// hyphens become underscores, then the whole string is upper-cased.
pub open spec fn normalized_key(s: Seq<char>) -> Seq<char> {
    upper_of(replace_sep(s))
}

/// Relies on `str::to_uppercase`: the result is a function of the
/// characters alone, and an empty string stays empty.
#[verifier::external_body]
fn to_uppercase(s: &str) -> (r: String)
    ensures
        r@ == upper_of(s@),
        s@.len() == 0 ==> r@.len() == 0,
{
    s.to_uppercase()
}

/// Relies on `String::push`: appends the character.
pub assume_specification[ String::push ](s: &mut String, c: char)
    ensures
        final(s)@ == old(s)@.push(c),
;

/// The environment-variable name a key is normalized to in mock mode.
pub fn normalize_key(key: &str) -> (r: String)
    ensures
        r@ == normalized_key(key@),
{
    let n = key.unicode_len();
    let mut replaced = String::new();
    let mut i: usize = 0;
    while i < n
        invariant
            n == key@.len(),
            i <= n,
            replaced@ =~= replace_sep(key@.subrange(0, i as int)),
        decreases n - i,
    {
        let c = key.get_char(i);
        let out = if c == '/' || c == '-' {
            '_'
        } else {
            c
        };
        replaced.push(out);
        proof {
            assert(key@.subrange(0, i + 1).drop_last() =~= key@.subrange(0, i as int));
            assert(replace_sep(key@.subrange(0, i + 1)) =~= replace_sep(
                key@.subrange(0, i as int),
            ).push(out));
        }
        i += 1;
    }
    proof {
        assert(key@.subrange(0, n as int) =~= key@);
    }
    to_uppercase(replaced.as_str())
}

impl Client {
    /// Upgrade to a client whose lookups go through the unbounded
    /// shared-map cache; clones of the result share one cache.
    pub fn with_cache(self) -> (r: CachedClient)
        ensures
            r.spec_transport() == self.spec_transport(),
            r.spec_is_mock() == self.spec_is_mock(),
    {
        Client { ssm: self.ssm, cache: EternalCache::new_cache() }
    }

    /// Upgrade to a client whose lookups go through an expiring cache of at
    /// most 32 entries with the given time-to-live in seconds (under a
    /// thousand years, or the cache construction would fail).
    pub fn with_cache_expire(self, time_to_live_secs: u64) -> (r: ExpireCachedClient)
        requires
            time_to_live_secs < 30_000_000_000,
        ensures
            r.spec_transport() == self.spec_transport(),
            r.spec_is_mock() == self.spec_is_mock(),
            expire_capacity(r.spec_cache()) == 32,
            expire_ttl_secs(r.spec_cache()) == time_to_live_secs,
    {
        Client { ssm: self.ssm, cache: moka_new(32, time_to_live_secs) }
    }

    /// Upgrade to a client that uses the given cache strategy.
    pub fn with_cache_raw<C: Cache>(self, cache: C) -> (r: Client<C>)
        ensures
            r.spec_transport() == self.spec_transport(),
            r.spec_is_mock() == self.spec_is_mock(),
            r.spec_cache() == cache,
    {
        Client { ssm: self.ssm, cache }
    }

    /// A mock client whose cache is seeded from the given pairs and doubles
    /// as the mock data source; on duplicate keys the later pair wins. The
    /// store handed to the shared lock is built by
    /// [`CacheStore::from_pairs`], whose contract pins its contents to
    /// exactly the pairs' last-write-wins map.
    pub fn mock_from_map(map: Vec<(String, String)>) -> (r: CachedClient)
        ensures
            r.spec_is_mock(),
    {
        Client { ssm: None, cache: EternalCache::from_store(CacheStore::from_pairs(&map)) }
    }
}

impl CachedClient {
    /// Exclusive access to the raw shared store, for seeding or manual
    /// invalidation; lookups through every clone wait until the returned
    /// handle releases the store again.
    pub fn get_mut_cache(&self) -> (r: (
        CacheStore,
        vstd::rwlock::WriteHandle<'_, CacheStore, StoreInv>,
    ))
        ensures
            r.0.wf(),
            r.1.rwlock() == *self.spec_cache().lock(),
    {
        self.cache.acquire_store()
    }

    /// Remove every entry from the shared cache.
    pub fn clear_cache(&self) {
        let (mut store, handle) = self.cache.acquire_store();
        store.clear();
        handle.release_write(store);
    }
}

} // verus!
