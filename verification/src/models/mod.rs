//! The data that the dashboard keeps and serves.

pub mod tag;

pub use tag::{Tag, TagOption, TagUpdate};
pub mod user;

pub use user::{Guild, User};
