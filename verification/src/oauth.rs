//! Logging in with Discord (OAuth2): the routes, the scopes asked for, the
//! messages shown after the callback, and the bot's invite link.

use vstd::prelude::*;
use vstd::string::*;
use crate::numeric::{decimal, push_decimal};
use crate::routing::{add_route, route_spec, routes_view, Method, Route};

verus! {

/// Discord's authorization endpoint.
pub const AUTH_URL: &'static str = "https://discord.com/api/oauth2/authorize";

/// Discord's token endpoint.
pub const TOKEN_URL: &'static str = "https://discord.com/api/oauth2/token";

/// The private cookie that holds the logged-in user.
pub const USER_COOKIE: &'static str = "user";

/// The scopes that a login asks for: the user's guilds and identity.
pub fn login_scopes() -> (s: Vec<String>)
    ensures
        s@.len() == 2,
        s@[0]@ == "guilds"@,
        s@[1]@ == "identify"@,
{
    let mut s: Vec<String> = Vec::new();
    s.push(String::from_str("guilds"));
    s.push(String::from_str("identify"));
    s
}

/// A one-time message shown after a redirect.
#[derive(Debug, Clone)]
pub struct Flash {
    /// Whether it reports a success (else an error).
    pub success: bool,
    /// Where the browser is sent.
    pub redirect: String,
    pub message: String,
}

pub struct FlashView {
    pub success: bool,
    pub redirect: Seq<char>,
    pub message: Seq<char>,
}

impl View for Flash {
    type V = FlashView;

    open spec fn view(&self) -> FlashView {
        FlashView { success: self.success, redirect: self.redirect@, message: self.message@ }
    }
}

fn flash(success: bool, redirect: &str, message: &str) -> (f: Flash)
    ensures
        f@ == (FlashView { success, redirect: redirect@, message: message@ }),
{
    Flash { success, redirect: String::from_str(redirect), message: String::from_str(message) }
}

/// The message after Discord called back with a code: "Logged in" where
/// the code was exchanged for a token, else "Failed to log in"; both lead
/// to the callback page.
pub fn callback_success(logged_in: bool) -> (f: Flash)
    ensures
        f@ == (FlashView {
            success: logged_in,
            redirect: "/static/callback.html"@,
            message: if logged_in {
                "Logged in"@
            } else {
                "Failed to log in"@
            },
        }),
{
    if logged_in {
        flash(true, "/static/callback.html", "Logged in")
    } else {
        flash(false, "/static/callback.html", "Failed to log in")
    }
}

/// The message after Discord called back with an error.
pub fn callback_error() -> (f: Flash)
    ensures
        f@ == (FlashView {
            success: false,
            redirect: "/static/callback.html"@,
            message: "Error Logging In"@,
        }),
{
    flash(false, "/static/callback.html", "Error Logging In")
}

/// The message after logging out.
pub fn logout() -> (f: Flash)
    ensures
        f@ == (FlashView { success: true, redirect: "/"@, message: "Logged out"@ }),
{
    flash(true, "/", "Logged out")
}

/// The link that invites the bot (application `client_id`) to the guild
/// `guild_id`, with the bot's permissions and the dashboard's callback.
pub fn invite(client_id: &str, guild_id: u64) -> (url: String)
    ensures
        url@ == "https://discord.com/api/oauth2/authorize?client_id="@ + client_id@
            + "&scope=bot%20applications.commands&permissions=1611000937&redirect_uri=https%3A%2F%2Fdashboard.squid.pink%2Fapi%2Foauth%2Fcallback&guild_id="@
            + decimal(guild_id as nat) + "&response_type=code"@,
{
    let mut url = String::from_str("https://discord.com/api/oauth2/authorize?client_id=");
    url.append(client_id);
    url.append(
        "&scope=bot%20applications.commands&permissions=1611000937&redirect_uri=https%3A%2F%2Fdashboard.squid.pink%2Fapi%2Foauth%2Fcallback&guild_id=",
    );
    push_decimal(&mut url, guild_id);
    url.append("&response_type=code");
    url
}

/// The routes of the login API.
pub fn routes() -> (r: Vec<Route>)
    ensures
        routes_view(r@) == seq![
            route_spec(Method::Get, "/login"@, None, None, "login"@),
            route_spec(Method::Get, "/callback?<code>&<_state>"@, Some(1i32), None, "callback_success"@),
            route_spec(Method::Get, "/callback?<error>&<error_description>&<state>"@, Some(2i32), None, "callback_error"@),
            route_spec(Method::Get, "/logout"@, None, None, "logout"@),
            route_spec(Method::Get, "/invite?<guild_id>"@, None, None, "invite"@),
        ],
{
    let mut r: Vec<Route> = Vec::new();
    add_route(&mut r, Method::Get, "/login", None, None, "login");
    add_route(&mut r, Method::Get, "/callback?<code>&<_state>", Some(1), None, "callback_success");
    add_route(&mut r, Method::Get, "/callback?<error>&<error_description>&<state>", Some(2), None, "callback_error");
    add_route(&mut r, Method::Get, "/logout", None, None, "logout");
    add_route(&mut r, Method::Get, "/invite?<guild_id>", None, None, "invite");
    assert(routes_view(r@) =~= seq![
            route_spec(Method::Get, "/login"@, None, None, "login"@),
            route_spec(Method::Get, "/callback?<code>&<_state>"@, Some(1i32), None, "callback_success"@),
            route_spec(Method::Get, "/callback?<error>&<error_description>&<state>"@, Some(2i32), None, "callback_error"@),
            route_spec(Method::Get, "/logout"@, None, None, "logout"@),
            route_spec(Method::Get, "/invite?<guild_id>"@, None, None, "invite"@),
        ]);
    r
}

} // verus!
