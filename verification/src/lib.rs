//! Verified core of the Squid dashboard backend: the tag and user models,
//! the rules that validate them, the key schema of the cache, the route
//! tables and the decisions that each HTTP handler takes.

pub mod numeric;
pub mod text;
pub mod validation;
pub mod json;

pub mod models;
pub mod reply;
pub mod keys;
pub mod cache;
pub mod routing;

pub mod database;
pub mod user;
pub mod oauth;
pub mod server;
pub mod db;
pub mod http;

pub use server::CORS;
