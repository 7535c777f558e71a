//! The guild lookups that read the document store directly: a guild's
//! server record and its settings.

use vstd::prelude::*;
use crate::reply::{Fetch, Status};
use crate::routing::{add_route, route_spec, routes_view, Method, Route};

pub use crate::database::plugins::edit_settings;

verus! {

/// The answer to a request for a guild's settings: the stored document, an
/// empty document where there is none, and an error where the store failed.
pub fn settings<T>(found: Fetch<T>, empty: T) -> (r: Result<T, Status>)
    ensures
        r == match found {
            Fetch::Found(d) => Ok(d),
            Fetch::Missing => Ok(empty),
            Fetch::Failed => Err(Status::InternalServerError),
        },
{
    match found {
        Fetch::Found(d) => Ok(d),
        Fetch::Missing => Ok(empty),
        Fetch::Failed => Err(Status::InternalServerError),
    }
}

/// The answer to a request for a guild's server record: the record, not
/// found, or an error where the store failed.
pub fn guild<T>(found: Fetch<T>) -> (r: Result<T, Status>)
    ensures
        r == match found {
            Fetch::Found(d) => Ok(d),
            Fetch::Missing => Err(Status::NotFound),
            Fetch::Failed => Err(Status::InternalServerError),
        },
{
    match found {
        Fetch::Found(d) => Ok(d),
        Fetch::Missing => Err(Status::NotFound),
        Fetch::Failed => Err(Status::InternalServerError),
    }
}

/// The routes of the direct lookups.
pub fn routes() -> (r: Vec<Route>)
    ensures
        routes_view(r@) == seq![
            route_spec(Method::Get, "/guilds/<guild_id>"@, None, None, "guild"@),
            route_spec(Method::Get, "/guilds/<guild_id>/settings"@, None, None, "settings"@),
            route_spec(Method::Post, "/guilds/<guild_id>/settings"@, None, Some("json"@), "edit_settings"@),
        ],
{
    let mut r: Vec<Route> = Vec::new();
    add_route(&mut r, Method::Get, "/guilds/<guild_id>", None, None, "guild");
    add_route(&mut r, Method::Get, "/guilds/<guild_id>/settings", None, None, "settings");
    add_route(&mut r, Method::Post, "/guilds/<guild_id>/settings", None, Some("json"), "edit_settings");
    assert(routes_view(r@) =~= seq![
            route_spec(Method::Get, "/guilds/<guild_id>"@, None, None, "guild"@),
            route_spec(Method::Get, "/guilds/<guild_id>/settings"@, None, None, "settings"@),
            route_spec(Method::Post, "/guilds/<guild_id>/settings"@, None, Some("json"@), "edit_settings"@),
        ]);
    r
}

} // verus!
