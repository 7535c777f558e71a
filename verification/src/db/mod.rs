//! The stores: the document database and the cache.

pub mod mongo;
