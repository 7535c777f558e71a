//! The document database: which database is used, and how its connection
//! pool is configured.

use vstd::prelude::*;
use vstd::string::*;
use crate::models::tag::opt_text;

verus! {

/// The database that holds the dashboard's collections: the environment
/// value `MONGO_DB`, or `Test` where it is not set.
pub fn database_name(mongo_db: Option<String>) -> (name: String)
    ensures
        name@ == match opt_text(mongo_db) {
            Some(v) => v,
            None => "Test"@,
        },
{
    match mongo_db {
        Some(v) => v,
        None => String::from_str("Test"),
    }
}

/// The pool options given to the database client (times in seconds).
#[derive(Debug, Clone, Copy, PartialEq, Eq, Structural)]
pub struct PoolSettings {
    pub min_pool_size: Option<u32>,
    pub max_pool_size: Option<u32>,
    pub max_idle_time: Option<u64>,
    pub connect_timeout: Option<u64>,
}

impl PoolSettings {
    /// The pool options for a pool configuration: the minimum as it is, the
    /// maximum cut to 32 bits (as `as u32` does), the idle timeout as it is
    /// and the connect timeout always set.
    pub fn from_config(
        min_connections: Option<u32>,
        max_connections: usize,
        idle_timeout: Option<u64>,
        connect_timeout: u64,
    ) -> (s: PoolSettings)
        ensures
            s == (PoolSettings {
                min_pool_size: min_connections,
                max_pool_size: Some(max_connections as u32),
                max_idle_time: idle_timeout,
                connect_timeout: Some(connect_timeout),
            }),
    {
        PoolSettings {
            min_pool_size: min_connections,
            max_pool_size: Some(max_connections as u32),
            max_idle_time: idle_timeout,
            connect_timeout: Some(connect_timeout),
        }
    }
}

} // verus!
