use squid_dashboard::cache::{cache_step, user_data_entry, user_guilds_entry, CacheStep};
use squid_dashboard::keys::{
    channel_key, channel_set_key, guild_key, member_key, plugins_key, role_key, role_set_key,
    tag_data_key, user_data_key, user_guilds_key, BOT_GUILDS_SET, GUILD_OWNERSHIP_SET,
    USER_DATA_TTL, USER_GUILDS_TTL,
};
use squid_dashboard::models::user::{
    auth_finish, auth_start, guild_of_path, membership_key, AuthStep, Guild, MissingAuthorization,
    TokenLifetime, TokenType, User,
};
use squid_dashboard::reply::Status;
use squid_dashboard::user::mark_bot_presence;

fn segments(path: &str) -> Vec<String> {
    path.split('/').filter(|s| !s.is_empty()).map(|s| s.to_string()).collect()
}

fn guild(id: &str) -> Guild {
    Guild {
        name: format!("guild {}", id),
        id: id.to_string(),
        icon: None,
        owner: false,
        permissions: "8".to_string(),
        features: vec!["COMMUNITY".to_string()],
        bot_in_guild: None,
    }
}

#[test]
fn cache_keys() {
    assert_eq!(user_guilds_key("tok"), "user:tok:guilds");
    assert_eq!(user_data_key("tok"), "user:tok:data");
    assert_eq!(guild_key(42), "guild.42");
    assert_eq!(role_set_key(42), "role.42");
    assert_eq!(role_key(42, "7"), "role.42.7");
    assert_eq!(channel_set_key(42), "channelmap.guild.42");
    assert_eq!(channel_key("9"), "channel.9");
    assert_eq!(plugins_key(0), "plugins:0");
    assert_eq!(tag_data_key(42, "hello"), "tags:42:hello");
    assert_eq!(member_key(42, "1001"), "member.42.1001");
    assert_eq!(BOT_GUILDS_SET, "guild");
    assert_eq!(GUILD_OWNERSHIP_SET, "guilds");
    assert_eq!(USER_DATA_TTL, 3600);
    assert_eq!(USER_GUILDS_TTL, 360);
}

#[test]
fn guild_setup_takes_cache_answer() {
    let mut g = guild("1");
    g.setup(Some(true));
    assert!(g.owner);
    g.setup(None);
    assert!(g.owner);
    g.setup(Some(false));
    assert!(!g.owner);
    assert_eq!(g.id, "1");
}

#[test]
fn bot_presence_marks_each_guild() {
    let mut gs = vec![guild("1"), guild("2"), guild("3")];
    mark_bot_presence(&mut gs, &vec![true, false, true]);
    assert_eq!(gs[0].bot_in_guild, Some(true));
    assert_eq!(gs[1].bot_in_guild, Some(false));
    assert_eq!(gs[2].bot_in_guild, Some(true));
    assert_eq!(gs[1].id, "2");
    assert_eq!(gs[2].features, vec!["COMMUNITY".to_string()]);
}

#[test]
fn user_from_token_response() {
    let life = TokenLifetime { secs: 604800, nanos: 0 };
    let u = User::from_token_response(
        "abc".into(),
        TokenType::Bearer,
        Some(life),
        Some("ref".into()),
        Some(vec!["guilds".into(), "identify".into()]),
    )
    .expect("complete response");
    assert_eq!(u.access_token, "abc");
    assert_eq!(u.refresh_token, "ref");
    assert_eq!(u.expires_in, life);
    assert_eq!(u.scopes.len(), 2);
    assert_eq!(u.authorization(), "Bearer abc");
    assert!(User::from_token_response("a".into(), TokenType::Bearer, None, Some("r".into()), Some(vec![])).is_none());
    assert!(User::from_token_response("a".into(), TokenType::Mac, Some(life), None, Some(vec![])).is_none());
    assert!(User::from_token_response("a".into(), TokenType::Bearer, Some(life), Some("r".into()), None).is_none());
}

#[test]
fn guild_in_path() {
    assert_eq!(guild_of_path(&segments("/api/guilds/123/tags")), Some(123));
    assert_eq!(guild_of_path(&segments("/api/guilds/abc")), None);
    assert_eq!(guild_of_path(&segments("/api/guilds")), None);
    assert_eq!(guild_of_path(&segments("/api/user")), None);
    // The first `guilds` segment counts.
    assert_eq!(guild_of_path(&segments("/api/guilds/guilds/5")), None);
    assert_eq!(guild_of_path(&segments("/guilds/7/guilds/5")), Some(7));
    assert_eq!(guild_of_path(&segments("/api/guilds/+0")), Some(0));
}

#[test]
fn auth_without_cookie_is_refused() {
    match auth_start(&segments("/api/user"), false) {
        AuthStep::Reject(s, m) => {
            assert_eq!(s, Status::Unauthorized);
            assert_eq!(m, MissingAuthorization::Missing);
        },
        other => panic!("{:?}", other),
    }
    assert!(matches!(auth_start(&segments("/api/guilds/1"), false), AuthStep::Reject(..)));
}

#[test]
fn auth_checks_membership_for_guild_paths() {
    assert!(matches!(auth_start(&segments("/api/user"), true), AuthStep::Accept));
    assert!(matches!(auth_start(&segments("/api/guilds/99/tags"), true), AuthStep::CheckMember(99)));
    assert!(matches!(auth_finish(true), AuthStep::Accept));
    assert!(matches!(
        auth_finish(false),
        AuthStep::Reject(Status::Unauthorized, MissingAuthorization::Missing)
    ));
}

#[test]
fn membership_key_from_profile() {
    assert_eq!(
        membership_key(99, r#"{"id":"1001","username":"squid"}"#).as_deref(),
        Some("member.99.1001")
    );
    assert_eq!(membership_key(99, r#"{"id":1001}"#), None);
    assert_eq!(membership_key(99, r#"{"username":"squid"}"#), None);
    assert_eq!(membership_key(99, "null"), None);
    assert_eq!(membership_key(99, "not json"), None);
}

#[test]
fn cache_entries_for_user() {
    let e = user_data_entry("tok");
    assert_eq!(e.key, "user:tok:data");
    assert_eq!(e.ttl, 3600);
    let e = user_guilds_entry("tok");
    assert_eq!(e.key, "user:tok:guilds");
    assert_eq!(e.ttl, 360);
}

#[test]
fn cache_step_uses_cache_or_fetches() {
    match cache_step(user_guilds_entry("tok"), Some("[]".to_string())) {
        CacheStep::UseCached(t) => assert_eq!(t, "[]"),
        other => panic!("{:?}", other),
    }
    match cache_step(user_data_entry("tok"), None) {
        CacheStep::FetchThenStore(e) => {
            assert_eq!(e.key, "user:tok:data");
            assert_eq!(e.ttl, 3600);
        },
        other => panic!("{:?}", other),
    }
}
