//! Requests: an HTTP method, a destination URI, the merged-in headers
//! and a body, composed in memory and handed to a transport unchanged.

use vstd::prelude::*;

use crate::headers::HeaderSet;
use crate::headers::HeaderView;
use crate::headers::entries_wf;
use crate::uri::spec_parse_base;

verus! {

/// An HTTP method token.
#[derive(Clone, Copy, Debug, PartialEq, Eq, Structural)]
pub enum Method {
    Get,
    Put,
    Post,
    Delete,
    Head,
    Options,
    Patch,
}

impl Method {
    /// The method's wire token.
    pub open spec fn spec_token(self) -> Seq<char> {
        match self {
            Method::Get => "GET"@,
            Method::Put => "PUT"@,
            Method::Post => "POST"@,
            Method::Delete => "DELETE"@,
            Method::Head => "HEAD"@,
            Method::Options => "OPTIONS"@,
            Method::Patch => "PATCH"@,
        }
    }

    /// The method's wire token, as it is sent on the line.
    pub fn as_str(&self) -> (r: &'static str)
        ensures
            r@ == self.spec_token(),
    {
        match self {
            Method::Get => "GET",
            Method::Put => "PUT",
            Method::Post => "POST",
            Method::Delete => "DELETE",
            Method::Head => "HEAD",
            Method::Options => "OPTIONS",
            Method::Patch => "PATCH",
        }
    }
}

/// Why a request could not be built: the path-and-query handed to URI
/// composition was malformed, or the destination URI itself was. Both
/// point at a programming error in the caller, not at the network.
#[derive(Clone, Copy, Debug, PartialEq, Eq, Structural)]
pub enum BuildError {
    InvalidPathAndQuery,
    InvalidUri,
}

/// A request as the contracts see it.
#[verifier::ext_equal]
pub struct RequestView {
    pub method: Method,
    pub uri: Seq<char>,
    pub headers: Seq<HeaderView>,
    pub body: Seq<u8>,
}

/// A fully-formed request: transient, owned by the call that builds it.
#[derive(Debug)]
pub struct Request {
    pub method: Method,
    pub uri: String,
    pub headers: HeaderSet,
    pub body: Vec<u8>,
}

impl View for Request {
    type V = RequestView;

    open spec fn view(&self) -> RequestView {
        RequestView {
            method: self.method,
            uri: self.uri@,
            headers: self.headers@,
            body: self.body@,
        }
    }
}

impl Request {
    /// The destination URI decomposes into scheme, authority and
    /// path-and-query, and the headers are a well-formed set.
    pub open spec fn wf(self) -> bool {
        &&& spec_parse_base(self.uri@) is Ok
        &&& entries_wf(self@.headers)
    }
}

} // verus!
