//! The server as a whole: its CORS headers, whether it runs in production,
//! and what it mounts where.

use vstd::prelude::*;
use vstd::string::*;

verus! {

/// A response header.
#[derive(Debug, Clone)]
pub struct Header {
    pub name: String,
    pub value: String,
}

/// The views of a list of headers: (name, value) pairs.
pub open spec fn headers_view(h: Seq<Header>) -> Seq<(Seq<char>, Seq<char>)> {
    h.map_values(|x: Header| (x.name@, x.value@))
}

/// When a fairing runs.
#[derive(Debug, Clone, Copy, PartialEq, Eq, Structural)]
pub enum FairingKind {
    Ignite,
    Liftoff,
    Request,
    Response,
    Shutdown,
}

/// How a fairing describes itself.
#[derive(Debug, Clone)]
pub struct FairingInfo {
    pub name: String,
    pub kind: FairingKind,
}

/// The fairing that adds the CORS headers to every response.
#[derive(Debug, Clone, Copy)]
pub struct CORS;

impl CORS {
    /// The fairing's name, and that it runs on responses.
    pub fn info(&self) -> (i: FairingInfo)
        ensures
            i.name@ == "Add CORS headers to responses"@,
            i.kind == FairingKind::Response,
    {
        FairingInfo { name: String::from_str("Add CORS headers to responses"), kind: FairingKind::Response }
    }

    /// The headers set on every response: the dashboard's origin, the
    /// allowed methods and headers, and that credentials are allowed.
    pub fn headers(&self) -> (h: Vec<Header>)
        ensures
            headers_view(h@) == seq![
                ("Access-Control-Allow-Origin"@, "dashboard.squid.pink"@),
                ("Access-Control-Allow-Methods"@, "POST, GET, PATCH, OPTIONS"@),
                ("Access-Control-Allow-Headers"@, "dashboard.squid.pink"@),
                ("Access-Control-Allow-Credentials"@, "true"@),
            ],
    {
        let mut h: Vec<Header> = Vec::new();
        h.push(Header { name: String::from_str("Access-Control-Allow-Origin"), value: String::from_str("dashboard.squid.pink") });
        h.push(Header { name: String::from_str("Access-Control-Allow-Methods"), value: String::from_str("POST, GET, PATCH, OPTIONS") });
        h.push(Header { name: String::from_str("Access-Control-Allow-Headers"), value: String::from_str("dashboard.squid.pink") });
        h.push(Header { name: String::from_str("Access-Control-Allow-Credentials"), value: String::from_str("true") });
        assert(headers_view(h@) =~= seq![
                ("Access-Control-Allow-Origin"@, "dashboard.squid.pink"@),
                ("Access-Control-Allow-Methods"@, "POST, GET, PATCH, OPTIONS"@),
                ("Access-Control-Allow-Headers"@, "dashboard.squid.pink"@),
                ("Access-Control-Allow-Credentials"@, "true"@),
            ]);
        h
    }
}

/// Whether the server runs in production: the environment value
/// `ROCKET_ENV` is `production`, or is not set.
pub fn is_production(rocket_env: Option<String>) -> (p: bool)
    ensures
        p == match rocket_env {
            Some(v) => v@ == "production"@,
            None => true,
        },
{
    let production = String::from_str("production");
    match rocket_env {
        Some(v) => v == production,
        None => true,
    }
}

/// What is mounted at a base path.
#[derive(Debug, Clone)]
pub enum Mounted {
    /// The files of a directory (relative to the crate), at a rank.
    Files { dir: String, rank: i32 },
    /// The empty answer to CORS preflight requests.
    Preflight,
    /// The routes of the login API.
    OAuth,
    /// The routes of the guild API.
    Database,
    /// The routes of the user API.
    User,
}

pub enum MountedView {
    Files { dir: Seq<char>, rank: i32 },
    Preflight,
    OAuth,
    Database,
    User,
}

/// A base path and what is mounted there.
#[derive(Debug, Clone)]
pub struct Mount {
    pub base: String,
    pub mounted: Mounted,
}

/// The views of a mount plan.
pub open spec fn mounts_view(m: Seq<Mount>) -> Seq<(Seq<char>, MountedView)> {
    m.map_values(
        |x: Mount|
            (
                x.base@,
                match x.mounted {
                    Mounted::Files { dir, rank } => MountedView::Files { dir: dir@, rank },
                    Mounted::Preflight => MountedView::Preflight,
                    Mounted::OAuth => MountedView::OAuth,
                    Mounted::Database => MountedView::Database,
                    Mounted::User => MountedView::User,
                },
            ),
    )
}

/// The mounts that every server has.
pub open spec fn base_mounts() -> Seq<(Seq<char>, MountedView)> {
    seq![
        ("/static"@, MountedView::Files { dir: "static"@, rank: 9 }),
        ("/static"@, MountedView::Preflight),
        ("/api/oauth"@, MountedView::OAuth),
        ("/api/"@, MountedView::Database),
        ("/api/user"@, MountedView::User),
    ]
}

/// What the server mounts: the static files, the preflight answer and the
/// three APIs; outside production also the frontend's build and the
/// preflight answer under `/api`.
pub fn mount_plan(production: bool) -> (m: Vec<Mount>)
    ensures
        mounts_view(m@) == if production {
            base_mounts()
        } else {
            base_mounts() + seq![
                ("/"@, MountedView::Files { dir: "../client/dist"@, rank: 8 }),
                ("/api"@, MountedView::Preflight),
            ]
        },
{
    let mut m: Vec<Mount> = Vec::new();
    m.push(Mount { base: String::from_str("/static"), mounted: Mounted::Files { dir: String::from_str("static"), rank: 9 } });
    m.push(Mount { base: String::from_str("/static"), mounted: Mounted::Preflight });
    m.push(Mount { base: String::from_str("/api/oauth"), mounted: Mounted::OAuth });
    m.push(Mount { base: String::from_str("/api/"), mounted: Mounted::Database });
    m.push(Mount { base: String::from_str("/api/user"), mounted: Mounted::User });
    assert(mounts_view(m@) =~= base_mounts());
    if !production {
        m.push(Mount { base: String::from_str("/"), mounted: Mounted::Files { dir: String::from_str("../client/dist"), rank: 8 } });
        m.push(Mount { base: String::from_str("/api"), mounted: Mounted::Preflight });
        assert(mounts_view(m@) =~= base_mounts() + seq![
                ("/"@, MountedView::Files { dir: "../client/dist"@, rank: 8 }),
                ("/api"@, MountedView::Preflight),
            ]);
    }
    m
}

} // verus!
