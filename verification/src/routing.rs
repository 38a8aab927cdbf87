//! The router: an immutable ordered route table, scanned in
//! registration order. A route matches on equal method and on an
//! exact pattern, or as a prefix when the pattern ends in `/` and is
//! more than the bare root; the first match wins, and a miss resolves
//! to the not-found handler rather than failing.
use vstd::prelude::*;

use crate::http::HttpMethod;
use crate::request::Request;
use crate::text::{bytes_eq, starts_with};

verus! {

/// Which handler a route binds; `NotFound` is the default when no
/// route matches.
#[derive(Clone, Copy, Debug, PartialEq, Eq, Structural)]
pub enum HandlerKind {
    Root,
    Echo,
    UserAgent,
    GetFile,
    PostFile,
    NotFound,
}

/// A registered (pattern, method) pair bound to a handler.
#[derive(Clone, Debug)]
pub struct Route {
    pub pattern: Vec<u8>,
    pub method: HttpMethod,
    pub handler: HandlerKind,
}

/// The mathematical image of a `Route`.
pub ghost struct RouteModel {
    pub pattern: Seq<u8>,
    pub method: HttpMethod,
    pub handler: HandlerKind,
}

impl View for Route {
    type V = RouteModel;

    open spec fn view(&self) -> RouteModel {
        RouteModel { pattern: self.pattern@, method: self.method, handler: self.handler }
    }
}

impl Route {
    /// Bind a pattern and a method to a handler.
    pub fn new(pattern: Vec<u8>, method: HttpMethod, handler: HandlerKind) -> (r: Route)
        ensures
            r@ == (RouteModel { pattern: pattern@, method, handler }),
    {
        Route { pattern, method, handler }
    }
}

/// Does a route match a request's method and path? Exact pattern
/// match always; prefix match when the pattern ends in `/` and is
/// longer than the bare root pattern `/`, which matches exactly only.
pub open spec fn route_matches(r: RouteModel, method: HttpMethod, path: Seq<u8>) -> bool {
    r.method == method && (r.pattern == path || (r.pattern.len() > 1 && r.pattern.last() == '/'
        as u8 && r.pattern.len() <= path.len() && path.take(r.pattern.len() as int) == r.pattern))
}

/// The handler of the first route in registration order that matches;
/// `NotFound` when none does.
pub open spec fn spec_resolve(routes: Seq<RouteModel>, method: HttpMethod, path: Seq<u8>)
    -> HandlerKind
    decreases routes.len(),
{
    if routes.len() == 0 {
        HandlerKind::NotFound
    } else if route_matches(routes.first(), method, path) {
        routes.first().handler
    } else {
        spec_resolve(routes.drop_first(), method, path)
    }
}

/// Resolution is first-match-by-registration-order: when a route
/// matches and no earlier-registered route does, its handler is the
/// one resolved — so of two overlapping routes that both match, the
/// earlier-registered one always wins. Being a function of the route
/// table and the request alone, resolution is also deterministic.
pub proof fn lemma_first_match_wins(
    routes: Seq<RouteModel>,
    method: HttpMethod,
    path: Seq<u8>,
    i: int,
)
    requires
        0 <= i < routes.len(),
        route_matches(routes[i], method, path),
        forall|k: int| 0 <= k < i ==> !route_matches(routes[k], method, path),
    ensures
        spec_resolve(routes, method, path) == routes[i].handler,
    decreases i,
{
    if i > 0 {
        assert(routes.drop_first()[i - 1] == routes[i]);
        assert(forall|k: int| 0 <= k < i - 1 ==> routes.drop_first()[k] == routes[k + 1]);
        lemma_first_match_wins(routes.drop_first(), method, path, i - 1);
    }
}

/// When no route matches, resolution yields the not-found handler.
pub proof fn lemma_no_match_not_found(routes: Seq<RouteModel>, method: HttpMethod, path: Seq<u8>)
    requires
        forall|k: int| 0 <= k < routes.len() ==> !route_matches(routes[k], method, path),
    ensures
        spec_resolve(routes, method, path) == HandlerKind::NotFound,
    decreases routes.len(),
{
    if routes.len() > 0 {
        assert(forall|k: int|
            0 <= k < routes.len() - 1 ==> routes.drop_first()[k] == routes[k + 1]);
        lemma_no_match_not_found(routes.drop_first(), method, path);
    }
}

/// The ordered route table, built once at startup and never mutated.
#[derive(Clone, Debug)]
pub struct Router {
    pub routes: Vec<Route>,
}

impl View for Router {
    type V = Seq<RouteModel>;

    open spec fn view(&self) -> Seq<RouteModel> {
        self.routes@.map_values(|r: Route| r@)
    }
}

impl Router {
    /// A router over the given routes, in registration order.
    pub fn new(routes: Vec<Route>) -> (r: Router)
        ensures
            r@ == routes@.map_values(|rt: Route| rt@),
    {
        Router { routes }
    }

    /// Append a route to the ordered list. Registration happens once
    /// at startup, before any request is resolved; matching is
    /// first-registered-first-matched.
    pub fn register(&mut self, route: Route)
        ensures
            final(self)@ =~= old(self)@.push(route@),
    {
        self.routes.push(route);
        proof {
            assert(self@ =~= old(self)@.push(self.routes@.last()@));
        }
    }

    /// The handler of the first route that matches the request;
    /// `NotFound` when none does. Never fails.
    pub fn get_handler(&self, req: &Request) -> (h: HandlerKind)
        ensures
            h == spec_resolve(self@, req@.method, req@.path.path),
    {
        let mut i: usize = 0;
        while i < self.routes.len()
            invariant
                i <= self@.len(),
                self@.len() == self.routes@.len(),
                self@ == self.routes@.map_values(|r: Route| r@),
                forall|k: int| 0 <= k < i ==> !route_matches(self@[k], req@.method, req@.path.path),
            decreases self@.len() - i,
        {
            let route = &self.routes[i];
            let method_ok = route.method == req.method;
            let plen = route.pattern.len();
            let matched = method_ok && (bytes_eq(&route.pattern, &req.path.path) || (plen > 1
                && route.pattern[plen - 1] == '/' as u8 && starts_with(
                &req.path.path,
                &route.pattern,
            )));
            if matched {
                proof {
                    assert(route_matches(self@[i as int], req@.method, req@.path.path));
                    lemma_first_match_wins(self@, req@.method, req@.path.path, i as int);
                }
                return route.handler;
            }
            proof {
                assert(!route_matches(self@[i as int], req@.method, req@.path.path));
            }
            i = i + 1;
        }
        proof {
            lemma_no_match_not_found(self@, req@.method, req@.path.path);
        }
        HandlerKind::NotFound
    }
}

} // verus!
