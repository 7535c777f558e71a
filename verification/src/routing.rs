//! Route tables: which handler answers which method and path.

use vstd::prelude::*;
use vstd::string::*;

verus! {

/// HTTP methods that the dashboard answers.
#[derive(Debug, Clone, Copy, PartialEq, Eq, Structural)]
pub enum Method {
    Get,
    Post,
    Patch,
    Delete,
    Options,
}

/// One route: a method, a path template, the rank that orders routes with
/// the same path (lower first), the format that a request body must have
/// (`json`), if the route takes one, and the handler's name.
#[derive(Debug, Clone)]
pub struct Route {
    pub method: Method,
    pub path: String,
    pub rank: Option<i32>,
    pub format: Option<String>,
    pub handler: String,
}

pub struct RouteView {
    pub method: Method,
    pub path: Seq<char>,
    pub rank: Option<i32>,
    pub format: Option<Seq<char>>,
    pub handler: Seq<char>,
}

/// The text of an optional string.
pub open spec fn opt_string_view(o: Option<String>) -> Option<Seq<char>> {
    match o {
        Some(s) => Some(s@),
        None => None,
    }
}

/// The text of an optional string slice.
pub open spec fn opt_str_view(o: Option<&str>) -> Option<Seq<char>> {
    match o {
        Some(s) => Some(s@),
        None => None,
    }
}

impl View for Route {
    type V = RouteView;

    open spec fn view(&self) -> RouteView {
        RouteView {
            method: self.method,
            path: self.path@,
            rank: self.rank,
            format: opt_string_view(self.format),
            handler: self.handler@,
        }
    }
}

/// The views of a table of routes.
pub open spec fn routes_view(r: Seq<Route>) -> Seq<RouteView> {
    r.map_values(|x: Route| x@)
}

/// The route view made of its parts.
pub open spec fn route_spec(
    method: Method,
    path: Seq<char>,
    rank: Option<i32>,
    format: Option<Seq<char>>,
    handler: Seq<char>,
) -> RouteView {
    RouteView { method, path, rank, format, handler }
}

/// Appends a route to a table.
pub fn add_route(
    table: &mut Vec<Route>,
    method: Method,
    path: &str,
    rank: Option<i32>,
    format: Option<&str>,
    handler: &str,
)
    ensures
        routes_view(final(table)@) == routes_view(old(table)@).push(
            route_spec(method, path@, rank, opt_str_view(format), handler@),
        ),
{
    let stored = match format {
        Some(f) => Some(String::from_str(f)),
        None => None,
    };
    table.push(
        Route { method, path: String::from_str(path), rank, format: stored, handler: String::from_str(handler) },
    );
    assert(routes_view(table@) =~= routes_view(old(table)@).push(
        route_spec(method, path@, rank, opt_str_view(format), handler@),
    ));
}

} // verus!
