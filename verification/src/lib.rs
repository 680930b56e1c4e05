//! Convenience layer for a cloud parameter store: a read-through cache in
//! front of a key lookup service, with pluggable eviction strategies and a
//! mock/offline mode; plus the payload type and helpers of the object-store
//! companion client.

pub mod cache;
pub mod client;
pub mod object;
pub mod store;
pub mod table;

pub use cache::Cache;
pub use cache::CachedClient;
pub use cache::EternalCache;
pub use cache::ExpireCache;
pub use cache::ExpireCachedClient;
pub use client::Client;
pub use client::Error;
pub use client::finish_env;
pub use client::normalize_key;
pub use client::plan_lookup;
pub use client::GetStep;
pub use client::RemoteReply;
pub use object::S3Object;
pub use object::copy_destination_key;
pub use object::copy_source;
pub use object::merge;
pub use object::strip_key_prefix;
pub use store::CacheEntry;
pub use store::CacheStore;
pub use table::TableType;
