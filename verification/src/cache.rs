//! Cache-aside reads: a value is answered from the cache where the cache
//! holds it, and is otherwise fetched and stored for a while.

use vstd::prelude::*;
use crate::keys::{user_data_key, user_guilds_key, USER_DATA_TTL, USER_GUILDS_TTL};

verus! {

/// Where a cached value lives, and how many seconds a stored copy lives.
#[derive(Debug)]
pub struct CacheEntry {
    pub key: String,
    pub ttl: u64,
}

/// What a handler does once it has read a cached value.
#[derive(Debug)]
pub enum CacheStep {
    /// The cache holds this text: answer from it, and store nothing.
    UseCached(String),
    /// The cache holds nothing: fetch the value, then store its JSON text
    /// under the entry's key for the entry's lifetime.
    FetchThenStore(CacheEntry),
}

/// The next step after reading `entry` from the cache, which answered
/// `cached`.
pub fn cache_step(entry: CacheEntry, cached: Option<String>) -> (s: CacheStep)
    ensures
        match cached {
            Some(t) => s == CacheStep::UseCached(t),
            None => s == CacheStep::FetchThenStore(entry),
        },
{
    match cached {
        Some(t) => CacheStep::UseCached(t),
        None => CacheStep::FetchThenStore(entry),
    }
}

/// The cache entry of the profile of the user with access token `token`:
/// `user:{token}:data`, kept for an hour.
pub fn user_data_entry(token: &str) -> (e: CacheEntry)
    ensures
        e.key@ == "user:"@ + token@ + ":data"@,
        e.ttl == USER_DATA_TTL,
{
    CacheEntry { key: user_data_key(token), ttl: USER_DATA_TTL }
}

/// The cache entry of the guild list of the user with access token
/// `token`: `user:{token}:guilds`, kept for six minutes.
pub fn user_guilds_entry(token: &str) -> (e: CacheEntry)
    ensures
        e.key@ == "user:"@ + token@ + ":guilds"@,
        e.ttl == USER_GUILDS_TTL,
{
    CacheEntry { key: user_guilds_key(token), ttl: USER_GUILDS_TTL }
}

} // verus!
