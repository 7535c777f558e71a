//! The guild API: cached guild data, plugins, settings and tags.

pub mod base;
pub mod guilds;
pub mod plugins;
pub mod tags;

use vstd::prelude::*;
use crate::routing::{add_route, route_spec, routes_view, Method, Route};

verus! {

/// The routes that the guild API mounts.
pub fn routes() -> (r: Vec<Route>)
    ensures
        routes_view(r@) == seq![
            route_spec(Method::Get, "/guilds/<guild_id>"@, None, None, "get_guild"@),
            route_spec(Method::Get, "/guilds/<guild_id>/roles"@, None, None, "get_roles"@),
            route_spec(Method::Get, "/guilds/<guild_id>/channels"@, None, None, "get_channels"@),
            route_spec(Method::Get, "/guilds/<guild_id>/settings"@, None, None, "get_settings"@),
            route_spec(Method::Post, "/guilds/<guild_id>/settings"@, None, Some("json"@), "edit_settings"@),
            route_spec(Method::Get, "/guilds/<guild_id>/plugins"@, None, None, "get_plugins"@),
            route_spec(Method::Post, "/guilds/<guild_id>/plugins"@, None, Some("json"@), "edit_plugins"@),
            route_spec(Method::Get, "/guilds/<guild_id>/tags"@, None, None, "get_tags"@),
            route_spec(Method::Post, "/guilds/<guild_id>/tags"@, None, Some("json"@), "create_tag"@),
            route_spec(Method::Patch, "/guilds/<guild_id>/tags/<tag_name>"@, None, Some("json"@), "update_tag"@),
            route_spec(Method::Delete, "/guilds/<guild_id>/tags/<tag_name>"@, None, None, "delete_tag"@),
        ],
{
    let mut r: Vec<Route> = Vec::new();
    add_route(&mut r, Method::Get, "/guilds/<guild_id>", None, None, "get_guild");
    add_route(&mut r, Method::Get, "/guilds/<guild_id>/roles", None, None, "get_roles");
    add_route(&mut r, Method::Get, "/guilds/<guild_id>/channels", None, None, "get_channels");
    add_route(&mut r, Method::Get, "/guilds/<guild_id>/settings", None, None, "get_settings");
    add_route(&mut r, Method::Post, "/guilds/<guild_id>/settings", None, Some("json"), "edit_settings");
    add_route(&mut r, Method::Get, "/guilds/<guild_id>/plugins", None, None, "get_plugins");
    add_route(&mut r, Method::Post, "/guilds/<guild_id>/plugins", None, Some("json"), "edit_plugins");
    add_route(&mut r, Method::Get, "/guilds/<guild_id>/tags", None, None, "get_tags");
    add_route(&mut r, Method::Post, "/guilds/<guild_id>/tags", None, Some("json"), "create_tag");
    add_route(&mut r, Method::Patch, "/guilds/<guild_id>/tags/<tag_name>", None, Some("json"), "update_tag");
    add_route(&mut r, Method::Delete, "/guilds/<guild_id>/tags/<tag_name>", None, None, "delete_tag");
    assert(routes_view(r@) =~= seq![
            route_spec(Method::Get, "/guilds/<guild_id>"@, None, None, "get_guild"@),
            route_spec(Method::Get, "/guilds/<guild_id>/roles"@, None, None, "get_roles"@),
            route_spec(Method::Get, "/guilds/<guild_id>/channels"@, None, None, "get_channels"@),
            route_spec(Method::Get, "/guilds/<guild_id>/settings"@, None, None, "get_settings"@),
            route_spec(Method::Post, "/guilds/<guild_id>/settings"@, None, Some("json"@), "edit_settings"@),
            route_spec(Method::Get, "/guilds/<guild_id>/plugins"@, None, None, "get_plugins"@),
            route_spec(Method::Post, "/guilds/<guild_id>/plugins"@, None, Some("json"@), "edit_plugins"@),
            route_spec(Method::Get, "/guilds/<guild_id>/tags"@, None, None, "get_tags"@),
            route_spec(Method::Post, "/guilds/<guild_id>/tags"@, None, Some("json"@), "create_tag"@),
            route_spec(Method::Patch, "/guilds/<guild_id>/tags/<tag_name>"@, None, Some("json"@), "update_tag"@),
            route_spec(Method::Delete, "/guilds/<guild_id>/tags/<tag_name>"@, None, None, "delete_tag"@),
        ]);
    r
}

} // verus!
