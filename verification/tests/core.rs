use sublight::Runner;
use sublight::request::BuildError;
use sublight::request::Method;
use sublight::uri::UriError;
use sublight::uri::parse_base_uri;

#[test]
fn init() {
    let test_runner = Runner::init("http://example.com/", None, None).unwrap();
    assert_eq!(test_runner.endpoint, "http://example.com/");
    assert_eq!(test_runner.default_headers.len(), 1);
    let entry = test_runner.default_headers.entry_at(0);
    assert_eq!(entry.name, "user-agent");
    assert_eq!(entry.value, "sublight/0.1.0");
    assert_eq!(entry.sensitive, false);
    assert_eq!(test_runner.scheme.as_str(), "http");
    assert_eq!(test_runner.authority.as_str(), "example.com");
}

#[test]
fn init_with_headers() {
    let test_runner = Runner::init(
        "http://example.com/",
        Some("test_header_name"),
        Some("test_header_value"),
    )
    .unwrap();
    assert_eq!(test_runner.endpoint, "http://example.com/");
    assert_eq!(test_runner.default_headers.is_empty(), false);
    assert_eq!(test_runner.default_headers.len(), 2);
    assert_eq!(
        test_runner.default_headers.get("user-agent").unwrap().as_str(),
        "sublight/0.1.0",
    );
    assert_eq!(
        test_runner.default_headers.get("test_header_name").unwrap().as_str(),
        "test_header_value",
    );
    assert_eq!(test_runner.scheme.as_str(), "http");
    assert_eq!(test_runner.authority.as_str(), "example.com");
}

#[test]
fn build_request() {
    let test_runner = Runner::init("http://example.com/", None, None).unwrap();
    let test_method = Method::Get;
    let test_uri = test_runner.endpoint.clone();
    let test_body = Vec::new();
    let test_request = test_runner.build_request(test_method, test_uri, test_body).unwrap();
    assert_eq!(test_request.method.as_str(), "GET");
    assert_eq!(test_request.uri, "http://example.com/");
    assert_eq!(test_request.headers.len(), 1);
    let entry = test_request.headers.entry_at(0);
    assert_eq!(entry.name, "user-agent");
    assert_eq!(entry.value, "sublight/0.1.0");
}

#[test]
fn build_uri() {
    let test_runner = Runner::init("http://example.com/", None, None).unwrap();
    let test_path_and_query = "/test_path_and_query";
    let test_build_uri = test_runner.build_uri(test_path_and_query).unwrap();
    let test_parts = parse_base_uri(&test_build_uri).unwrap();
    assert_eq!(test_parts.scheme, "http");
    assert_eq!(test_parts.authority, "example.com");
    assert_eq!(test_parts.path_and_query, "/test_path_and_query");
}

#[test]
fn init_missing_scheme_is_fatal() {
    let r = Runner::init("example.com/", None, None);
    assert!(matches!(r, Err(UriError::SchemeMissing)));
}

#[test]
fn init_missing_authority_is_fatal() {
    assert!(matches!(
        Runner::init("http:/v1/status", None, None),
        Err(UriError::AuthorityMissing),
    ));
    assert!(matches!(Runner::init("http://", None, None), Err(UriError::AuthorityMissing)));
}

#[test]
fn init_malformed_base_is_fatal() {
    assert!(matches!(Runner::init("1http://example.com/", None, None), Err(UriError::Malformed)));
    assert!(matches!(
        Runner::init("http://exa mple.com/", None, None),
        Err(UriError::Malformed),
    ));
    assert!(matches!(
        Runner::init("http://example.com/a path", None, None),
        Err(UriError::Malformed),
    ));
}

#[test]
fn init_keeps_port_and_userinfo() {
    let test_runner = Runner::init("https://user@localhost:8500/v1", None, None).unwrap();
    assert_eq!(test_runner.scheme.as_str(), "https");
    assert_eq!(test_runner.authority.as_str(), "user@localhost:8500");
}

#[test]
fn init_drops_invalid_header_value() {
    let test_runner =
        Runner::init("http://example.com/", Some("x-token"), Some("bad\nvalue")).unwrap();
    assert_eq!(test_runner.default_headers.len(), 1);
    assert!(test_runner.default_headers.get("x-token").is_none());
}

#[test]
fn init_drops_invalid_header_name() {
    let test_runner =
        Runner::init("http://example.com/", Some("bad name"), Some("value")).unwrap();
    assert_eq!(test_runner.default_headers.len(), 1);
}

#[test]
fn init_drops_half_supplied_header() {
    let with_name_only = Runner::init("http://example.com/", Some("x-token"), None).unwrap();
    assert_eq!(with_name_only.default_headers.len(), 1);
    let with_value_only = Runner::init("http://example.com/", None, Some("secret")).unwrap();
    assert_eq!(with_value_only.default_headers.len(), 1);
}

#[test]
fn init_replaces_identifying_header_on_name_clash() {
    let test_runner =
        Runner::init("http://example.com/", Some("User-Agent"), Some("other/1.0")).unwrap();
    assert_eq!(test_runner.default_headers.len(), 1);
    let entry = test_runner.default_headers.entry_at(0);
    assert_eq!(entry.name, "User-Agent");
    assert_eq!(entry.value, "other/1.0");
    assert_eq!(entry.sensitive, true);
}

#[test]
fn build_uri_empty_path_is_site_root() {
    let test_runner = Runner::init("http://example.com/", None, None).unwrap();
    let u = test_runner.build_uri("").unwrap();
    assert_eq!(u, "http://example.com");
}

#[test]
fn build_uri_rejects_relative_path() {
    let test_runner = Runner::init("http://example.com/", None, None).unwrap();
    assert!(matches!(
        test_runner.build_uri("v1/status/leader"),
        Err(BuildError::InvalidPathAndQuery),
    ));
}

#[test]
fn build_uri_rejects_fragment() {
    let test_runner = Runner::init("http://example.com/", None, None).unwrap();
    assert!(matches!(
        test_runner.build_uri("/v1/kv/key#frag"),
        Err(BuildError::InvalidPathAndQuery),
    ));
}

#[test]
fn build_uri_keeps_query() {
    let test_runner = Runner::init("http://example.com/", None, None).unwrap();
    let u = test_runner.build_uri("/v1/kv/key?dc=dc1&raw").unwrap();
    assert_eq!(u, "http://example.com/v1/kv/key?dc=dc1&raw");
}

#[test]
fn build_uri_composes_twice_the_same() {
    let test_runner = Runner::init("http://example.com/", None, None).unwrap();
    let a = test_runner.build_uri("/v1/agent/members").unwrap();
    let b = test_runner.build_uri("/v1/agent/members").unwrap();
    assert_eq!(a, b);
}

#[test]
fn build_request_rejects_malformed_uri() {
    let test_runner = Runner::init("http://example.com/", None, None).unwrap();
    let r = test_runner.build_request(Method::Get, String::from("no-scheme/at-all"), Vec::new());
    assert!(matches!(r, Err(BuildError::InvalidUri)));
}

#[test]
fn build_request_keeps_body() {
    let test_runner = Runner::init("http://example.com/", None, None).unwrap();
    let uri = test_runner.build_uri("/v1/kv/key").unwrap();
    let body = vec![1u8, 2, 3];
    let req = test_runner.build_request(Method::Put, uri, body.clone()).unwrap();
    assert_eq!(req.body, body);
    assert_eq!(req.method.as_str(), "PUT");
}

#[test]
fn build_request_carries_extra_header() {
    let test_runner =
        Runner::init("http://example.com/", Some("X-Token"), Some("secret")).unwrap();
    let uri = test_runner.build_uri("/v1/acl/bootstrap").unwrap();
    let req = test_runner.build_request(Method::Put, uri, Vec::new()).unwrap();
    assert_eq!(req.headers.len(), 2);
    let token = req.headers.get("x-token").unwrap();
    assert_eq!(token.as_str(), "secret");
    assert_eq!(req.headers.get("user-agent").unwrap().as_str(), "sublight/0.1.0");
}
