//! Users of the dashboard, the guilds they see, and the decision whether a
//! request may act on a guild.

use vstd::prelude::*;
use vstd::string::*;
use crate::json::{json_member_string, json_string_member, texts};
use crate::keys::member_key;
use crate::numeric::{decimal, parse_u64, parse_u64_spec};
use crate::reply::Status;
use crate::models::tag::opt_text;

verus! {

/// A guild as Discord lists it for a user.
#[derive(Debug, Clone)]
pub struct Guild {
    pub name: String,
    pub id: String,
    pub icon: Option<String>,
    pub owner: bool,
    pub permissions: String,
    pub features: Vec<String>,
    /// Whether the bot is in the guild, once that was looked up.
    pub bot_in_guild: Option<bool>,
}

pub struct GuildView {
    pub name: Seq<char>,
    pub id: Seq<char>,
    pub icon: Option<Seq<char>>,
    pub owner: bool,
    pub permissions: Seq<char>,
    pub features: Seq<Seq<char>>,
    pub bot_in_guild: Option<bool>,
}

impl View for Guild {
    type V = GuildView;

    open spec fn view(&self) -> GuildView {
        GuildView {
            name: self.name@,
            id: self.id@,
            icon: opt_text(self.icon),
            owner: self.owner,
            permissions: self.permissions@,
            features: texts(self.features@),
            bot_in_guild: self.bot_in_guild,
        }
    }
}

impl Guild {
    /// Takes the answer of the cache on whether the guild's id is in the set
    /// `GUILD_OWNERSHIP_SET` as the guild's `owner` flag; where the cache
    /// failed (`None`), the flag stays.
    pub fn setup(&mut self, in_set: Option<bool>)
        ensures
            final(self)@ == (GuildView {
                owner: match in_set {
                    Some(v) => v,
                    None => old(self)@.owner,
                },
                ..old(self)@
            }),
    {
        match in_set {
            Some(v) => {
                self.owner = v;
            },
            None => {},
        }
    }
}

/// The kind of an OAuth2 access token.
#[derive(Debug, Clone)]
pub enum TokenType {
    Bearer,
    Mac,
    Extension(String),
}

/// How long an access token lives.
#[derive(Debug, Clone, Copy, PartialEq, Eq, Structural)]
pub struct TokenLifetime {
    pub secs: u64,
    pub nanos: u32,
}

/// A logged-in user: the OAuth2 token that Discord granted.
#[derive(Debug, Clone)]
pub struct User {
    pub access_token: String,
    pub token_type: TokenType,
    pub expires_in: TokenLifetime,
    pub refresh_token: String,
    pub scopes: Vec<String>,
}

impl User {
    /// The user that a token response makes; `None` where the response
    /// lacks a lifetime, a refresh token or the scopes.
    pub fn from_token_response(
        access_token: String,
        token_type: TokenType,
        expires_in: Option<TokenLifetime>,
        refresh_token: Option<String>,
        scopes: Option<Vec<String>>,
    ) -> (r: Option<User>)
        ensures
            r is Some <==> (expires_in is Some && refresh_token is Some && scopes is Some),
            r matches Some(u) ==> {
                &&& u.access_token@ == access_token@
                &&& u.token_type == token_type
                &&& u.expires_in == expires_in->0
                &&& u.refresh_token@ == refresh_token->0@
                &&& u.scopes@ == scopes->0@
            },
    {
        match expires_in {
            Some(lifetime) => match refresh_token {
                Some(refresh) => match scopes {
                    Some(scopes) => Some(
                        User {
                            access_token,
                            token_type,
                            expires_in: lifetime,
                            refresh_token: refresh,
                            scopes,
                        },
                    ),
                    None => None,
                },
                None => None,
            },
            None => None,
        }
    }

    /// The `Authorization` header with which Discord is asked on the user's
    /// behalf: `Bearer {token}`.
    pub fn authorization(&self) -> (h: String)
        ensures
            h@ == "Bearer "@ + self.access_token@,
    {
        let mut h = String::from_str("Bearer ");
        h.append(self.access_token.as_str());
        h
    }
}

/// Why a request was refused.
#[derive(Debug, Clone, Copy, PartialEq, Eq, Structural)]
pub enum MissingAuthorization {
    Missing,
    Invalid,
}

/// Whether `i` is the first position of `x` in `segs`.
pub open spec fn first_position(segs: Seq<Seq<char>>, x: Seq<char>, i: int) -> bool {
    &&& 0 <= i < segs.len()
    &&& segs[i] == x
    &&& forall|j: int| 0 <= j < i ==> segs[j] != x
}

/// The guild that a request path names: the segment after the first
/// `guilds` segment, read as a `u64`.
pub open spec fn guild_in_path(segs: Seq<Seq<char>>) -> Option<u64> {
    if exists|i: int| first_position(segs, "guilds"@, i) {
        let i = choose|i: int| first_position(segs, "guilds"@, i);
        if i + 1 < segs.len() {
            parse_u64_spec(segs[i + 1])
        } else {
            None
        }
    } else {
        None
    }
}

/// The guild that the request path with `segments` names.
pub fn guild_of_path(segments: &Vec<String>) -> (r: Option<u64>)
    ensures
        r == guild_in_path(texts(segments@)),
{
    let guilds = String::from_str("guilds");
    let ghost segs = texts(segments@);
    let mut i: usize = 0;
    while i < segments.len()
        invariant
            i <= segments.len(),
            segs == texts(segments@),
            guilds@ == "guilds"@,
            forall|j: int| 0 <= j < i ==> segs[j] != "guilds"@,
        decreases segments.len() - i,
    {
        if segments[i] == guilds {
            proof {
                assert(first_position(segs, "guilds"@, i as int));
                let c = choose|c: int| first_position(segs, "guilds"@, c);
                assert(first_position(segs, "guilds"@, c));
                if c < i {
                    assert(segs[c] != "guilds"@);
                }
                if (i as int) < c {
                    assert(segs[i as int] == "guilds"@);
                }
                assert(c == i);
            }
            if i + 1 < segments.len() {
                return parse_u64(segments[i + 1].as_str());
            } else {
                return None;
            }
        }
        i = i + 1;
    }
    proof {
        if exists|c: int| first_position(segs, "guilds"@, c) {
            let c = choose|c: int| first_position(segs, "guilds"@, c);
            assert(segs[c] != "guilds"@);
        }
    }
    None
}

/// The next step of deciding whether a request comes from a user who may
/// act on the guild it names.
#[derive(Debug, Clone)]
pub enum AuthStep {
    /// Refuse the request.
    Reject(Status, MissingAuthorization),
    /// Let the request through as the user of the cookie.
    Accept,
    /// Load the user's profile, then ask the cache whether the user is a
    /// member of this guild.
    CheckMember(u64),
}

/// The first step: a request without the user cookie is refused; one whose
/// path names no guild is let through; otherwise membership is checked.
pub fn auth_start(segments: &Vec<String>, has_cookie: bool) -> (s: AuthStep)
    ensures
        !has_cookie ==> s == AuthStep::Reject(Status::Unauthorized, MissingAuthorization::Missing),
        has_cookie ==> s == match guild_in_path(texts(segments@)) {
            Some(g) => AuthStep::CheckMember(g),
            None => AuthStep::Accept,
        },
{
    let guild = guild_of_path(segments);
    if !has_cookie {
        return AuthStep::Reject(Status::Unauthorized, MissingAuthorization::Missing);
    }
    match guild {
        Some(g) => AuthStep::CheckMember(g),
        None => AuthStep::Accept,
    }
}

/// The cache entry that says whether the user whose profile (JSON text) is
/// `profile` is a member of `guild_id`: `member.{guild}.{id}`, with the
/// string member `id` of the profile; `None` when the profile has no such
/// member.
pub fn membership_key(guild_id: u64, profile: &str) -> (k: Option<String>)
    ensures
        opt_text(k) == match json_string_member(profile@, "id"@) {
            Some(id) => Some("member."@ + decimal(guild_id as nat) + "."@ + id),
            None => None,
        },
{
    let id_key = String::from_str("id");
    match json_member_string(profile, id_key.as_str()) {
        Some(id) => Some(member_key(guild_id, id.as_str())),
        None => None,
    }
}

/// The last step: a member is let through, anyone else refused.
pub fn auth_finish(is_member: bool) -> (s: AuthStep)
    ensures
        s == if is_member {
            AuthStep::Accept
        } else {
            AuthStep::Reject(Status::Unauthorized, MissingAuthorization::Missing)
        },
{
    if is_member {
        AuthStep::Accept
    } else {
        AuthStep::Reject(Status::Unauthorized, MissingAuthorization::Missing)
    }
}

} // verus!
