//! The unbounded shared-map strategy and its backing store: overwrite
//! semantics, clone sharing, clearing, seeding through exclusive access,
//! and the key normalization used by the mock environment fallback.

use ssm_utils::Cache;
use ssm_utils::CacheStore;
use ssm_utils::Client;
use ssm_utils::EternalCache;
use ssm_utils::normalize_key;

#[test]
fn store_insert_then_lookup() {
    let mut store = CacheStore::new();
    assert!(store.lookup("k").is_none());
    store.insert("k", "v");
    assert_eq!(store.lookup("k").as_deref(), Some("v"));
    assert!(store.lookup("other").is_none());
}

#[test]
fn store_overwrite_last_write_wins() {
    let mut store = CacheStore::new();
    store.insert("k", "v1");
    store.insert("k", "v2");
    assert_eq!(store.lookup("k").as_deref(), Some("v2"));
}

#[test]
fn store_clear_removes_everything() {
    let mut store = CacheStore::new();
    store.insert("a", "1");
    store.insert("b", "2");
    store.clear();
    assert!(store.lookup("a").is_none());
    assert!(store.lookup("b").is_none());
}

#[test]
fn eternal_cache_overwrite() {
    let cache = EternalCache::new_cache();
    cache.set("k", "v1");
    cache.set("k", "v2");
    assert_eq!(cache.get("k").as_deref(), Some("v2"));
}

#[test]
fn eternal_cache_clones_share_storage() {
    let cache = EternalCache::new_cache();
    let other = cache.clone();
    other.set("k", "v");
    assert_eq!(cache.get("k").as_deref(), Some("v"));
}

#[test]
fn cloned_clients_share_the_cache() {
    let client = Client::mock().with_cache();
    let clone = client.clone();
    clone.insert_to_cache("k", "v");
    assert_eq!(client.get_cache_store().get("k").as_deref(), Some("v"));
}

#[test]
fn clear_cache_empties_the_shared_store() {
    let client = Client::mock_from_map(vec![("a".to_string(), "1".to_string())]);
    client.clear_cache();
    assert!(client.get_cache_store().get("a").is_none());
}

#[test]
fn get_mut_cache_gives_exclusive_seeding_access() {
    let client = Client::mock().with_cache();
    let (mut store, handle) = client.get_mut_cache();
    store.insert("seeded", "yes");
    handle.release_write(store);
    assert_eq!(client.get_cache_store().get("seeded").as_deref(), Some("yes"));
}

#[test]
fn from_pairs_seeds_exactly_the_pairs() {
    let store = CacheStore::from_pairs(&vec![
        ("a".to_string(), "1".to_string()),
        ("b".to_string(), "2".to_string()),
        ("a".to_string(), "3".to_string()),
    ]);
    assert_eq!(store.lookup("a").as_deref(), Some("3"));
    assert_eq!(store.lookup("b").as_deref(), Some("2"));
    assert!(store.lookup("c").is_none());
}

#[test]
fn mock_from_map_later_pair_wins() {
    let client = Client::mock_from_map(vec![
        ("k".to_string(), "v1".to_string()),
        ("k".to_string(), "v2".to_string()),
    ]);
    assert_eq!(client.get_cache_store().get("k").as_deref(), Some("v2"));
}

#[test]
fn noop_strategy_never_holds_anything() {
    let cache: () = Cache::new_cache();
    cache.set("k", "v");
    assert!(Cache::get(&cache, "k").is_none());
}

#[test]
fn normalize_key_replaces_and_uppercases() {
    assert_eq!(normalize_key("a/b-c"), "A_B_C");
    assert_eq!(normalize_key("some/param-name"), "SOME_PARAM_NAME");
    assert_eq!(normalize_key("already_UPPER"), "ALREADY_UPPER");
    assert_eq!(normalize_key(""), "");
}

#[test]
fn with_cache_raw_uses_the_given_strategy() {
    let cache = EternalCache::new_cache();
    cache.set("k", "v");
    let client = Client::mock().with_cache_raw(cache);
    assert!(client.is_mock());
    assert_eq!(client.get_cache_store().get("k").as_deref(), Some("v"));
}
