//! The user API: the logged-in user's profile and guilds.

use vstd::prelude::*;
use crate::models::user::{Guild, GuildView};
use crate::routing::{add_route, route_spec, routes_view, Method, Route};

verus! {

/// Marks each guild with whether the bot is in it: `present[i]` is the
/// answer of the cache for `guilds[i]`; nothing else changes.
pub fn mark_bot_presence(guilds: &mut Vec<Guild>, present: &Vec<bool>)
    requires
        old(guilds)@.len() == present@.len(),
    ensures
        final(guilds)@.len() == old(guilds)@.len(),
        forall|i: int| 0 <= i < final(guilds)@.len() ==> #[trigger] final(guilds)@[i]@ == (GuildView {
            bot_in_guild: Some(present@[i]),
            ..old(guilds)@[i]@
        }),
{
    let n = guilds.len();
    let mut i: usize = 0;
    while i < n
        invariant
            n == guilds@.len() == present@.len(),
            old(guilds)@.len() == n,
            i <= n,
            forall|k: int| 0 <= k < i ==> #[trigger] guilds@[k]@ == (GuildView {
                bot_in_guild: Some(present@[k]),
                ..old(guilds)@[k]@
            }),
            forall|k: int| i <= k < n ==> #[trigger] guilds@[k] == old(guilds)@[k],
        decreases n - i,
    {
        let mut g = Guild {
            name: String::new(),
            id: String::new(),
            icon: None,
            owner: false,
            permissions: String::new(),
            features: Vec::new(),
            bot_in_guild: None,
        };
        guilds.set_and_swap(i, &mut g);
        g.bot_in_guild = Some(present[i]);
        guilds.set_and_swap(i, &mut g);
        i = i + 1;
    }
}

/// The routes of the user API.
pub fn routes() -> (r: Vec<Route>)
    ensures
        routes_view(r@) == seq![
            route_spec(Method::Get, "/"@, Some(1i32), None, "user"@),
            route_spec(Method::Get, "/"@, Some(2i32), None, "no_user"@),
            route_spec(Method::Get, "/guilds"@, None, None, "guilds"@),
        ],
{
    let mut r: Vec<Route> = Vec::new();
    add_route(&mut r, Method::Get, "/", Some(1), None, "user");
    add_route(&mut r, Method::Get, "/", Some(2), None, "no_user");
    add_route(&mut r, Method::Get, "/guilds", None, None, "guilds");
    assert(routes_view(r@) =~= seq![
            route_spec(Method::Get, "/"@, Some(1i32), None, "user"@),
            route_spec(Method::Get, "/"@, Some(2i32), None, "no_user"@),
            route_spec(Method::Get, "/guilds"@, None, None, "guilds"@),
        ]);
    r
}

} // verus!
