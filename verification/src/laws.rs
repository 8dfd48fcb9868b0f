//! The general guarantees of the core, stated and proved once over all
//! inputs rather than observed on samples.

use vstd::prelude::*;

use crate::Runner;
use crate::spec_default_headers;
use crate::spec_user_agent_header;
use crate::spec_user_agent_name;
use crate::headers::HeaderView;
use crate::headers::is_valid_header_name;
use crate::headers::is_valid_header_value;
use crate::headers::lemma_wf_count_one;
use crate::headers::name_eq;
use crate::headers::spec_count_name;
use crate::headers::spec_find_name;
use crate::request::RequestView;
use crate::transport::ResponseView;
use crate::transport::StubTransport;
use crate::transport::TransportError;
use crate::transport::lemma_find_route_found;
use crate::transport::lemma_find_route_none;
use crate::transport::spec_find_route;
use crate::transport::spec_request_pq;
use crate::uri::UriError;
use crate::uri::UriPartsView;
use crate::uri::is_authority_char;
use crate::uri::is_scheme_char;
use crate::uri::is_valid_authority;
use crate::uri::is_valid_path_and_query;
use crate::uri::is_valid_scheme;
use crate::uri::lemma_authority_end_at;
use crate::uri::lemma_find_colon_at;
use crate::uri::spec_compose;
use crate::uri::spec_parse_base;

verus! {

/// Supplying a valid header pair at construction yields the Default
/// Header Set that holds exactly the identifying header and that pair,
/// the pair marked sensitive — for every pair whose name is not the
/// identifying header's own.
pub proof fn lemma_default_headers_with_pair(name: Seq<char>, value: Seq<char>)
    requires
        is_valid_header_name(name),
        is_valid_header_value(value),
        !name_eq(name, spec_user_agent_name()),
    ensures
        spec_default_headers(Some(name), Some(value)) == seq![
            spec_user_agent_header(),
            HeaderView { name, value, sensitive: true },
        ],
{
    let h = HeaderView { name, value, sensitive: true };
    let base = seq![spec_user_agent_header()];
    assert(spec_find_name(base, name, 0) is None) by {
        assert(base[0] == spec_user_agent_header());
        if name_eq(spec_user_agent_name(), name) {
            crate::headers::lemma_name_eq_sym(spec_user_agent_name(), name);
        }
        assert(!name_eq(base[0].name, name));
        assert(spec_find_name(base, name, 1) is None);
    }
    assert(spec_default_headers(Some(name), Some(value)) =~= base.push(h));
    assert(base.push(h) =~= seq![spec_user_agent_header(), h]);
}

/// Omitting the pair — or supplying only half of it — yields the
/// Default Header Set that holds the identifying header alone.
pub proof fn lemma_default_headers_without_pair(n: Option<Seq<char>>, v: Option<Seq<char>>)
    requires
        n is None || v is None,
    ensures
        spec_default_headers(n, v) == seq![spec_user_agent_header()],
{
}

/// Composing with the same path-and-query twice yields the same URI:
/// the composition is a function of the endpoint's components and the
/// path alone, so any two results on equal inputs are equal.
pub proof fn lemma_compose_idempotent(
    scheme: Seq<char>,
    authority: Seq<char>,
    pq: Seq<char>,
    u1: Seq<char>,
    u2: Seq<char>,
)
    requires
        u1 == spec_compose(scheme, authority, pq),
        u2 == spec_compose(scheme, authority, pq),
    ensures
        u1 == u2,
{
}

/// Composing the endpoint's scheme and authority with a well-formed
/// path-and-query yields a URI that decomposes back into exactly that
/// scheme, that authority and that path-and-query.
pub proof fn lemma_compose_components(scheme: Seq<char>, authority: Seq<char>, pq: Seq<char>)
    requires
        is_valid_scheme(scheme),
        is_valid_authority(authority),
        is_valid_path_and_query(pq),
    ensures
        spec_parse_base(spec_compose(scheme, authority, pq)) == Ok::<UriPartsView, UriError>(
            UriPartsView { scheme, authority, path_and_query: pq },
        ),
{
    reveal_strlit("://");
    let u = spec_compose(scheme, authority, pq);
    let sl = scheme.len() as int;
    let al = authority.len() as int;
    assert(u.len() == sl + 3 + al + pq.len());
    assert(u[sl] == ':');
    assert(u[sl + 1] == '/');
    assert(u[sl + 2] == '/');
    assert forall|j: int| 0 <= j < sl implies u[j] != ':' by {
        assert(u[j] == scheme[j]);
        assert(is_scheme_char(scheme[j]));
    }
    lemma_find_colon_at(u, 0, sl);
    assert(u.subrange(0, sl) =~= scheme);
    let ae = sl + 3 + al;
    assert forall|j: int| sl + 3 <= j < ae implies !(u[j] == '/' || u[j] == '?' || u[j]
        == '#') by {
        assert(u[j] == authority[j - sl - 3]);
        assert(is_authority_char(authority[j - sl - 3]));
    }
    if pq.len() > 0 {
        assert(u[ae] == pq[0]);
        assert(pq[0] == '/');
    }
    lemma_authority_end_at(u, sl + 3, ae);
    assert(u.subrange(sl + 3, ae) =~= authority);
    assert(u.subrange(ae, u.len() as int) =~= pq);
    assert(spec_parse_base(u) == Ok::<UriPartsView, UriError>(
        UriPartsView { scheme, authority, path_and_query: pq },
    ));
}

/// Every header of the Default Header Set stands in a built request's
/// header set exactly once — counted up to letter case — and with its
/// value and sensitivity unchanged.
pub proof fn lemma_request_headers_exactly_once(runner: Runner, req: RequestView)
    requires
        runner.wf(),
        req.headers == runner.default_headers@,
    ensures
        forall|i: int|
            0 <= i < runner.default_headers@.len() ==> spec_count_name(
                req.headers,
                (#[trigger] runner.default_headers@[i]).name,
            ) == 1 && req.headers[i] == runner.default_headers@[i],
{
    assert forall|i: int| 0 <= i < runner.default_headers@.len() implies spec_count_name(
        req.headers,
        (#[trigger] runner.default_headers@[i]).name,
    ) == 1 && req.headers[i] == runner.default_headers@[i] by {
        lemma_wf_count_one(runner.default_headers@, i);
    }
}

/// A request whose method and path-and-query equal a configured
/// route's — and no earlier route's — is answered with exactly that
/// route's status and body.
pub proof fn lemma_dispatch_answers_configured(t: StubTransport, req: RequestView, i: int)
    requires
        0 <= i < t@.len(),
        t@[i].method == req.method,
        t@[i].path_and_query == spec_request_pq(req),
        forall|j: int|
            0 <= j < i ==> !(#[trigger] t@[j].method == req.method && t@[j].path_and_query
                == spec_request_pq(req)),
    ensures
        t.spec_respond(req) == Ok::<ResponseView, TransportError>(
            ResponseView { status: t@[i].status, body: t@[i].body },
        ),
{
    let pq = spec_request_pq(req);
    match spec_find_route(t@, req.method, pq, 0) {
        Some(k) => {
            lemma_find_route_found(t@, req.method, pq, 0, k);
            if k < i {
                assert(!(t@[k].method == req.method && t@[k].path_and_query == pq));
            }
            if i < k {
                assert(!(t@[i].method == req.method && t@[i].path_and_query == pq));
            }
            assert(k == i);
        },
        None => {
            lemma_find_route_none(t@, req.method, pq, 0);
            assert(!(t@[i].method == req.method && t@[i].path_and_query == pq));
        },
    }
}

/// A request that agrees with no configured route in both method and
/// path-and-query is answered by a transport failure, never by a
/// configured status.
pub proof fn lemma_dispatch_mismatch(t: StubTransport, req: RequestView)
    requires
        forall|j: int|
            0 <= j < t@.len() ==> !(#[trigger] t@[j].method == req.method && t@[j].path_and_query
                == spec_request_pq(req)),
    ensures
        t.spec_respond(req) is Err,
{
    let pq = spec_request_pq(req);
    match spec_find_route(t@, req.method, pq, 0) {
        Some(k) => {
            lemma_find_route_found(t@, req.method, pq, 0, k);
        },
        None => {},
    }
}

} // verus!
