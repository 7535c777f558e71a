//! A guild's cached description, roles and channels.

use vstd::prelude::*;
use crate::json::{json_text_valid, json_value_of, parse_json_value};
use crate::reply::Status;

verus! {

/// The answer to a request for a guild's description: the cached JSON
/// text, read as JSON; an error where the cache had no text or the text is
/// not JSON.
pub fn get_guild(cached: Option<String>) -> (r: Result<serde_json::Value, Status>)
    ensures
        r is Ok <==> (cached matches Some(t) && json_text_valid(t@)),
        r matches Ok(v) ==> (cached matches Some(t) && v == json_value_of(t@)),
        r is Err ==> r == Err::<serde_json::Value, Status>(Status::InternalServerError),
{
    match cached {
        Some(text) => match parse_json_value(text.as_str()) {
            Ok(v) => Ok(v),
            Err(_) => Err(Status::InternalServerError),
        },
        None => Err(Status::InternalServerError),
    }
}

} // verus!
