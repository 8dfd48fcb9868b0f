//! The transport boundary. A transport delivers a fully-formed request
//! and yields a response or a transport-level failure; the core passes
//! either through unchanged.
//!
//! The in-memory transport here is a remote test double: it is
//! configured with routes, answers a request whose method and
//! path-and-query equal a configured route's exactly, and fails every
//! other request. A networked transport lives outside this library and
//! is wired up by the caller.

use vstd::prelude::*;

use crate::request::Method;
use crate::request::Request;
use crate::request::RequestView;
use crate::uri::parse_base_uri;
use crate::uri::spec_parse_base;

verus! {

/// A transport-level failure: surfaced to the caller verbatim, never
/// retried and never classified by the core.
#[derive(Clone, Copy, Debug, PartialEq, Eq, Structural)]
pub enum TransportError {
    NoMatchingRoute,
}

/// A response as the contracts see it.
#[verifier::ext_equal]
pub struct ResponseView {
    pub status: u16,
    pub body: Seq<u8>,
}

/// A response: a status code and a body, returned by a transport and
/// never inspected, cached or mutated by the core.
#[derive(Debug)]
pub struct Response {
    pub status: u16,
    pub body: Vec<u8>,
}

impl View for Response {
    type V = ResponseView;

    open spec fn view(&self) -> ResponseView {
        ResponseView { status: self.status, body: self.body@ }
    }
}

/// A route as the contracts see it.
#[verifier::ext_equal]
pub struct RouteView {
    pub method: Method,
    pub path_and_query: Seq<char>,
    pub status: u16,
    pub body: Seq<u8>,
}

/// One configured answer of the test double: the method and
/// path-and-query it expects, and the status and body it returns for
/// them.
#[derive(Debug)]
pub struct Route {
    pub method: Method,
    pub path_and_query: String,
    pub status: u16,
    pub body: Vec<u8>,
}

impl View for Route {
    type V = RouteView;

    open spec fn view(&self) -> RouteView {
        RouteView {
            method: self.method,
            path_and_query: self.path_and_query@,
            status: self.status,
            body: self.body@,
        }
    }
}

/// The path-and-query component of a request's URI.
pub open spec fn spec_request_pq(req: RequestView) -> Seq<char> {
    match spec_parse_base(req.uri) {
        Ok(p) => p.path_and_query,
        Err(_) => Seq::<char>::empty(),
    }
}

/// The index of the first route that answers the given method and
/// path-and-query, if any.
pub open spec fn spec_find_route(
    routes: Seq<RouteView>,
    method: Method,
    pq: Seq<char>,
    i: int,
) -> Option<int>
    decreases routes.len() - i,
{
    if i < 0 || i >= routes.len() {
        None
    } else if routes[i].method == method && routes[i].path_and_query == pq {
        Some(i)
    } else {
        spec_find_route(routes, method, pq, i + 1)
    }
}

/// A remote test double: an in-memory transport configured with the
/// routes it answers.
#[derive(Debug)]
pub struct StubTransport {
    pub routes: Vec<Route>,
}

impl View for StubTransport {
    type V = Seq<RouteView>;

    open spec fn view(&self) -> Seq<RouteView> {
        self.routes@.map_values(|r: Route| r@)
    }
}

impl StubTransport {
    /// What the double answers: the configured status and body of the
    /// first route whose method and path-and-query both equal the
    /// request's exactly, and a transport failure when no route does.
    pub open spec fn spec_respond(self, req: RequestView) -> Result<
        ResponseView,
        TransportError,
    > {
        match spec_find_route(self@, req.method, spec_request_pq(req), 0) {
            Some(i) => Ok(ResponseView { status: self@[i].status, body: self@[i].body }),
            None => Err(TransportError::NoMatchingRoute),
        }
    }

    /// Answers a request: a response with a configured route's status
    /// and body exactly when the request's method and path-and-query
    /// match that route, a failure otherwise.
    pub fn respond(&self, req: &Request) -> (r: Result<Response, TransportError>)
        requires
            req.wf(),
        ensures
            match r {
                Ok(resp) => self.spec_respond(req@) matches Ok(v) && resp@ == v,
                Err(e) => self.spec_respond(req@) matches Err(e2) && e == e2,
            },
    {
        let parts = match parse_base_uri(req.uri.as_str()) {
            Ok(p) => p,
            Err(_) => {
                proof {
                    assert(false);
                }
                return Err(TransportError::NoMatchingRoute);
            },
        };
        let pq = parts.path_and_query;
        let n = self.routes.len();
        let mut i: usize = 0;
        while i < n
            invariant
                0 <= i <= n,
                n == self@.len(),
                pq@ == spec_request_pq(req@),
                spec_find_route(self@, req@.method, pq@, 0) == spec_find_route(
                    self@,
                    req@.method,
                    pq@,
                    i as int,
                ),
            decreases n - i,
        {
            let route = &self.routes[i];
            if route.method == req.method && route.path_and_query == pq {
                return Ok(Response { status: route.status, body: copy_bytes(&route.body) });
            }
            i += 1;
        }
        Err(TransportError::NoMatchingRoute)
    }
}

/// A route search that finds an index really found a match there, and
/// nothing before it matched.
pub proof fn lemma_find_route_found(
    routes: Seq<RouteView>,
    method: Method,
    pq: Seq<char>,
    from: int,
    i: int,
)
    requires
        0 <= from,
        spec_find_route(routes, method, pq, from) == Some(i),
    ensures
        from <= i < routes.len(),
        routes[i].method == method && routes[i].path_and_query == pq,
        forall|j: int|
            from <= j < i ==> !(#[trigger] routes[j].method == method && routes[j].path_and_query
                == pq),
    decreases routes.len() - from,
{
    if from < routes.len() && !(routes[from].method == method && routes[from].path_and_query
        == pq) {
        lemma_find_route_found(routes, method, pq, from + 1, i);
    }
}

/// A route search that fails really matches no route from its start
/// onward.
pub proof fn lemma_find_route_none(routes: Seq<RouteView>, method: Method, pq: Seq<char>, from: int)
    requires
        0 <= from,
        spec_find_route(routes, method, pq, from) is None,
    ensures
        forall|j: int|
            from <= j < routes.len() ==> !(#[trigger] routes[j].method == method
                && routes[j].path_and_query == pq),
    decreases routes.len() - from,
{
    if from < routes.len() {
        lemma_find_route_none(routes, method, pq, from + 1);
    }
}

/// A fresh copy of a byte vector, equal to it element by element.
fn copy_bytes(v: &Vec<u8>) -> (r: Vec<u8>)
    ensures
        r@ == v@,
{
    let n = v.len();
    let mut r: Vec<u8> = Vec::with_capacity(n);
    let mut i: usize = 0;
    while i < n
        invariant
            0 <= i <= n,
            n == v@.len(),
            r@ == v@.subrange(0, i as int),
        decreases n - i,
    {
        r.push(v[i]);
        proof {
            assert(r@ =~= v@.subrange(0, i as int + 1));
        }
        i += 1;
    }
    proof {
        assert(r@ =~= v@);
    }
    r
}

} // verus!
