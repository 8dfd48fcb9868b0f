//! A typed client core for a service-registry HTTP API: it owns the
//! immutable target endpoint (scheme and authority) and a set of
//! default headers, composes absolute URIs from relative paths, builds
//! requests with the default headers merged in, and dispatches built
//! requests through a transport, returning whatever the transport
//! returns, unmodified.
//!
//! The per-resource endpoint methods are callers of this core, not part
//! of it: they pick a path and a method, ask the core for the URI and
//! the request, and send it.

use vstd::prelude::*;

pub mod headers;
pub mod laws;
pub mod request;
pub mod transport;
pub mod uri;

use crate::headers::HeaderSet;
use crate::headers::HeaderView;
use crate::headers::check_header_name;
use crate::headers::check_header_value;
use crate::headers::is_valid_header_name;
use crate::headers::is_valid_header_value;
use crate::headers::spec_insert;
use crate::request::BuildError;
use crate::request::Method;
use crate::request::Request;
use crate::transport::Response;
use crate::transport::StubTransport;
use crate::transport::TransportError;
use crate::uri::UriError;
use crate::uri::UriPartsView;
use crate::uri::check_path_and_query;
use crate::uri::is_valid_authority;
use crate::uri::is_valid_path_and_query;
use crate::uri::is_valid_scheme;
use crate::uri::parse_base_uri;
use crate::uri::spec_compose;
use crate::uri::spec_parse_base;

verus! {

/// The name of the identifying header every client carries.
pub open spec fn spec_user_agent_name() -> Seq<char> {
    "user-agent"@
}

/// The identifying header's value: this client's name and version.
pub open spec fn spec_user_agent_value() -> Seq<char> {
    "sublight/0.1.0"@
}

/// The identifying header itself. It is never sensitive.
pub open spec fn spec_user_agent_header() -> HeaderView {
    HeaderView { name: spec_user_agent_name(), value: spec_user_agent_value(), sensitive: false }
}

/// The view of an optional borrowed string.
pub open spec fn spec_opt_view(o: Option<&str>) -> Option<Seq<char>> {
    match o {
        Some(s) => Some(s@),
        None => None,
    }
}

/// The Default Header Set a core is constructed with: the identifying
/// header, extended with the caller's pair exactly when both its name
/// and its value are present and well-formed. A malformed or missing
/// pair is silently omitted, never an error.
pub open spec fn spec_default_headers(n: Option<Seq<char>>, v: Option<Seq<char>>) -> Seq<
    HeaderView,
> {
    let base = seq![spec_user_agent_header()];
    match (n, v) {
        (Some(name), Some(value)) => {
            if is_valid_header_name(name) && is_valid_header_value(value) {
                spec_insert(base, HeaderView { name, value, sensitive: true })
            } else {
                base
            }
        },
        _ => base,
    }
}

/// The request-construction and dispatch core: the fixed endpoint the
/// client talks to, and the headers merged into every outgoing
/// request. Immutable once constructed; safe to share.
#[derive(Debug)]
pub struct Runner {
    pub endpoint: String,
    pub default_headers: HeaderSet,
    pub scheme: String,
    pub authority: String,
}

impl Runner {
    /// The stored scheme and authority are exactly the components of
    /// the stored endpoint, and the header set is well-formed.
    pub open spec fn wf(self) -> bool {
        &&& spec_parse_base(self.endpoint@) matches Ok(p) && p.scheme == self.scheme@
            && p.authority == self.authority@
        &&& is_valid_scheme(self.scheme@)
        &&& is_valid_authority(self.authority@)
        &&& self.default_headers.wf()
    }

    /// Initializes a core from a base URI string and at most one extra
    /// header pair. A base URI without a well-formed scheme and
    /// authority is a fatal error and yields no core; a missing or
    /// malformed header pair is silently dropped.
    pub fn init(uri: &str, header_name: Option<&str>, header_value: Option<&str>) -> (r: Result<
        Runner,
        UriError,
    >)
        ensures
            match r {
                Ok(runner) => {
                    &&& spec_parse_base(uri@) matches Ok(p) && runner.scheme@ == p.scheme
                        && runner.authority@ == p.authority
                    &&& runner.endpoint@ == uri@
                    &&& runner.default_headers@ == spec_default_headers(
                        spec_opt_view(header_name),
                        spec_opt_view(header_value),
                    )
                    &&& runner.wf()
                },
                Err(e) => spec_parse_base(uri@) == Err::<UriPartsView, UriError>(e),
            },
    {
        let parts = match parse_base_uri(uri) {
            Ok(p) => p,
            Err(e) => {
                return Err(e);
            },
        };
        let mut default_headers = HeaderSet::new();
        proof {
            reveal_strlit("user-agent");
            reveal_strlit("sublight/0.1.0");
            assert(is_valid_header_name(spec_user_agent_name()));
            assert(is_valid_header_value(spec_user_agent_value()));
        }
        default_headers.insert("user-agent".to_owned(), "sublight/0.1.0".to_owned(), false);
        proof {
            assert(default_headers@ =~= seq![spec_user_agent_header()]);
        }
        match (header_name, header_value) {
            (Some(name), Some(value)) => {
                if check_header_name(name) && check_header_value(value) {
                    default_headers.insert(name.to_owned(), value.to_owned(), true);
                }
            },
            _ => {},
        }
        Ok(
            Runner {
                endpoint: uri.to_owned(),
                default_headers,
                scheme: parts.scheme,
                authority: parts.authority,
            },
        )
    }

    /// Composes an absolute URI from the core's fixed scheme and
    /// authority and the given path-and-query, which is taken over
    /// unchanged: no normalization and no escaping is applied. A
    /// malformed path-and-query is a build failure.
    pub fn build_uri(&self, path_and_query: &str) -> (r: Result<String, BuildError>)
        requires
            self.wf(),
        ensures
            match r {
                Ok(u) => is_valid_path_and_query(path_and_query@) && u@ == spec_compose(
                    self.scheme@,
                    self.authority@,
                    path_and_query@,
                ),
                Err(e) => !is_valid_path_and_query(path_and_query@) && e
                    == BuildError::InvalidPathAndQuery,
            },
    {
        if !check_path_and_query(path_and_query) {
            return Err(BuildError::InvalidPathAndQuery);
        }
        let mut u = self.scheme.clone();
        u.append("://");
        u.append(self.authority.as_str());
        u.append(path_and_query);
        Ok(u)
    }

    /// Builds a request for a method, a destination URI and a body,
    /// with every entry of the Default Header Set merged in, each
    /// exactly once, and nothing else. The set is copied at build
    /// time, per request. A URI that does not decompose into scheme,
    /// authority and path-and-query is a build failure.
    pub fn build_request(&self, method: Method, uri: String, body: Vec<u8>) -> (r: Result<
        Request,
        BuildError,
    >)
        requires
            self.wf(),
        ensures
            match r {
                Ok(req) => {
                    &&& spec_parse_base(uri@) is Ok
                    &&& req@.method == method
                    &&& req@.uri == uri@
                    &&& req@.body == body@
                    &&& req@.headers == self.default_headers@
                    &&& req.wf()
                },
                Err(e) => spec_parse_base(uri@) is Err && e == BuildError::InvalidUri,
            },
    {
        match parse_base_uri(uri.as_str()) {
            Ok(_) => {},
            Err(_) => {
                return Err(BuildError::InvalidUri);
            },
        }
        let headers = self.default_headers.clone();
        Ok(Request { method, uri, headers, body })
    }

    /// Delivers a built request through the given transport and
    /// returns exactly what the transport returns: no retry, no
    /// buffering, no classification of failures.
    pub fn dispatch(&self, transport: &StubTransport, request: &Request) -> (r: Result<
        Response,
        TransportError,
    >)
        requires
            request.wf(),
        ensures
            match r {
                Ok(resp) => transport.spec_respond(request@) matches Ok(v) && resp@ == v,
                Err(e) => transport.spec_respond(request@) matches Err(e2) && e == e2,
            },
    {
        transport.respond(request)
    }
}

} // verus!
