use squid_dashboard::db::mongo::{database_name, PoolSettings};
use squid_dashboard::http::{application_id, bot_authorization};
use squid_dashboard::oauth::{
    callback_error, callback_success, invite, login_scopes, logout, AUTH_URL, TOKEN_URL,
    USER_COOKIE,
};
use squid_dashboard::routing::{Method, Route};
use squid_dashboard::server::{is_production, mount_plan, FairingKind, Mounted};
use squid_dashboard::CORS;

fn table(r: &[Route]) -> Vec<(Method, String, Option<i32>, String)> {
    r.iter().map(|x| (x.method, x.path.clone(), x.rank, x.handler.clone())).collect()
}

fn row(m: Method, p: &str, rank: Option<i32>, h: &str) -> (Method, String, Option<i32>, String) {
    (m, p.to_string(), rank, h.to_string())
}

#[test]
fn guild_api_routes() {
    let r = squid_dashboard::database::routes();
    assert_eq!(r.len(), 11);
    assert_eq!(table(&r)[0], row(Method::Get, "/guilds/<guild_id>", None, "get_guild"));
    assert_eq!(table(&r)[6], row(Method::Post, "/guilds/<guild_id>/plugins", None, "edit_plugins"));
    assert_eq!(table(&r)[9], row(Method::Patch, "/guilds/<guild_id>/tags/<tag_name>", None, "update_tag"));
    assert_eq!(table(&r)[10], row(Method::Delete, "/guilds/<guild_id>/tags/<tag_name>", None, "delete_tag"));
}

#[test]
fn direct_lookup_routes() {
    let r = squid_dashboard::database::base::routes();
    assert_eq!(
        table(&r),
        vec![
            row(Method::Get, "/guilds/<guild_id>", None, "guild"),
            row(Method::Get, "/guilds/<guild_id>/settings", None, "settings"),
            row(Method::Post, "/guilds/<guild_id>/settings", None, "edit_settings"),
        ]
    );
}

fn formats(r: &[Route]) -> Vec<(String, Option<String>)> {
    r.iter().map(|x| (x.handler.clone(), x.format.clone())).collect()
}

#[test]
fn json_bodies_have_json_format() {
    let json = Some("json".to_string());
    for (handler, format) in formats(&squid_dashboard::database::routes()) {
        let takes_json = ["edit_settings", "edit_plugins", "create_tag", "update_tag"].contains(&handler.as_str());
        assert_eq!(format, if takes_json { json.clone() } else { None }, "{}", handler);
    }
    assert_eq!(
        formats(&squid_dashboard::database::base::routes()),
        vec![
            ("guild".to_string(), None),
            ("settings".to_string(), None),
            ("edit_settings".to_string(), json.clone()),
        ]
    );
    assert!(squid_dashboard::user::routes().iter().all(|r| r.format.is_none()));
    assert!(squid_dashboard::oauth::routes().iter().all(|r| r.format.is_none()));
}

#[test]
fn user_and_login_routes() {
    let r = squid_dashboard::user::routes();
    assert_eq!(
        table(&r),
        vec![
            row(Method::Get, "/", Some(1), "user"),
            row(Method::Get, "/", Some(2), "no_user"),
            row(Method::Get, "/guilds", None, "guilds"),
        ]
    );
    let r = squid_dashboard::oauth::routes();
    assert_eq!(r.len(), 5);
    assert_eq!(table(&r)[1], row(Method::Get, "/callback?<code>&<_state>", Some(1), "callback_success"));
    assert_eq!(table(&r)[2], row(Method::Get, "/callback?<error>&<error_description>&<state>", Some(2), "callback_error"));
    assert_eq!(table(&r)[4], row(Method::Get, "/invite?<guild_id>", None, "invite"));
}

#[test]
fn invite_link() {
    assert_eq!(
        invite("1234", 42),
        "https://discord.com/api/oauth2/authorize?client_id=1234&scope=bot%20applications.commands&permissions=1611000937&redirect_uri=https%3A%2F%2Fdashboard.squid.pink%2Fapi%2Foauth%2Fcallback&guild_id=42&response_type=code"
    );
}

#[test]
fn login_messages() {
    let f = callback_success(true);
    assert!(f.success);
    assert_eq!(f.redirect, "/static/callback.html");
    assert_eq!(f.message, "Logged in");
    let f = callback_success(false);
    assert!(!f.success);
    assert_eq!(f.message, "Failed to log in");
    let f = callback_error();
    assert!(!f.success);
    assert_eq!(f.message, "Error Logging In");
    let f = logout();
    assert!(f.success);
    assert_eq!(f.redirect, "/");
    assert_eq!(f.message, "Logged out");
    assert_eq!(login_scopes(), vec!["guilds".to_string(), "identify".to_string()]);
    assert_eq!(AUTH_URL, "https://discord.com/api/oauth2/authorize");
    assert_eq!(TOKEN_URL, "https://discord.com/api/oauth2/token");
    assert_eq!(USER_COOKIE, "user");
}

#[test]
fn cors_headers() {
    let info = CORS.info();
    assert_eq!(info.name, "Add CORS headers to responses");
    assert_eq!(info.kind, FairingKind::Response);
    let h: Vec<(String, String)> = CORS.headers().into_iter().map(|h| (h.name, h.value)).collect();
    assert_eq!(
        h,
        vec![
            ("Access-Control-Allow-Origin".to_string(), "dashboard.squid.pink".to_string()),
            ("Access-Control-Allow-Methods".to_string(), "POST, GET, PATCH, OPTIONS".to_string()),
            ("Access-Control-Allow-Headers".to_string(), "dashboard.squid.pink".to_string()),
            ("Access-Control-Allow-Credentials".to_string(), "true".to_string()),
        ]
    );
}

#[test]
fn production_mode() {
    assert!(is_production(None));
    assert!(is_production(Some("production".into())));
    assert!(!is_production(Some("development".into())));
    assert!(!is_production(Some("Production".into())));
}

#[test]
fn mounts() {
    let p = mount_plan(true);
    assert_eq!(p.len(), 5);
    assert_eq!(p[0].base, "/static");
    assert!(matches!(&p[0].mounted, Mounted::Files { dir, rank: 9 } if dir == "static"));
    assert!(matches!(p[1].mounted, Mounted::Preflight));
    assert_eq!(p[2].base, "/api/oauth");
    assert!(matches!(p[3].mounted, Mounted::Database));
    assert_eq!(p[3].base, "/api/");
    assert!(matches!(p[4].mounted, Mounted::User));
    let d = mount_plan(false);
    assert_eq!(d.len(), 7);
    assert_eq!(d[5].base, "/");
    assert!(matches!(&d[5].mounted, Mounted::Files { dir, rank: 8 } if dir == "../client/dist"));
    assert_eq!(d[6].base, "/api");
    assert!(matches!(d[6].mounted, Mounted::Preflight));
}

#[test]
fn database_settings() {
    assert_eq!(database_name(None), "Test");
    assert_eq!(database_name(Some("squid".into())), "squid");
    let s = PoolSettings::from_config(Some(2), 10, Some(30), 5);
    assert_eq!(
        s,
        PoolSettings { min_pool_size: Some(2), max_pool_size: Some(10), max_idle_time: Some(30), connect_timeout: Some(5) }
    );
    let s = PoolSettings::from_config(None, 4294967297, None, 1);
    assert_eq!(s.max_pool_size, Some(1));
    assert_eq!(s.min_pool_size, None);
    assert_eq!(s.max_idle_time, None);
}

#[test]
fn bot_credentials() {
    assert_eq!(bot_authorization("xyz"), "Bot xyz");
    assert_eq!(application_id("123"), Some(123));
    assert_eq!(application_id("0"), None);
    assert_eq!(application_id("abc"), None);
}
