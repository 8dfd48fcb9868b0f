use sublight::headers::HeaderSet;
use sublight::headers::check_header_name;
use sublight::headers::check_header_value;
use sublight::headers::name_matches;
use sublight::request::Method;
use sublight::uri::UriError;
use sublight::uri::check_path_and_query;
use sublight::uri::parse_base_uri;

#[test]
fn parse_splits_all_three_components() {
    let parts = parse_base_uri("https://example.com:8500/v1/kv?recurse").unwrap();
    assert_eq!(parts.scheme, "https");
    assert_eq!(parts.authority, "example.com:8500");
    assert_eq!(parts.path_and_query, "/v1/kv?recurse");
}

#[test]
fn parse_accepts_empty_path() {
    let parts = parse_base_uri("http://example.com").unwrap();
    assert_eq!(parts.scheme, "http");
    assert_eq!(parts.authority, "example.com");
    assert_eq!(parts.path_and_query, "");
}

#[test]
fn parse_rejects_missing_scheme() {
    assert_eq!(parse_base_uri("example.com/").unwrap_err(), UriError::SchemeMissing);
    assert_eq!(parse_base_uri("//example.com/").unwrap_err(), UriError::SchemeMissing);
    assert_eq!(parse_base_uri("").unwrap_err(), UriError::SchemeMissing);
}

#[test]
fn parse_rejects_missing_authority() {
    assert_eq!(parse_base_uri("http:example.com").unwrap_err(), UriError::AuthorityMissing);
    assert_eq!(parse_base_uri("http://").unwrap_err(), UriError::AuthorityMissing);
    assert_eq!(parse_base_uri("http:///v1").unwrap_err(), UriError::AuthorityMissing);
}

#[test]
fn parse_rejects_malformed_components() {
    assert_eq!(parse_base_uri("://example.com").unwrap_err(), UriError::Malformed);
    assert_eq!(parse_base_uri("9http://example.com").unwrap_err(), UriError::Malformed);
    assert_eq!(parse_base_uri("ht~tp://example.com").unwrap_err(), UriError::Malformed);
    assert_eq!(parse_base_uri("http://exa<mple.com").unwrap_err(), UriError::Malformed);
    assert_eq!(parse_base_uri("http://example.com/v1/#frag").unwrap_err(), UriError::Malformed);
}

#[test]
fn path_and_query_grammar() {
    assert!(check_path_and_query(""));
    assert!(check_path_and_query("/"));
    assert!(check_path_and_query("/v1/status/leader"));
    assert!(check_path_and_query("/v1/kv/a%2Fb?dc=dc-1&keys"));
    assert!(!check_path_and_query("v1/status"));
    assert!(!check_path_and_query("/v1/kv/a b"));
    assert!(!check_path_and_query("/v1#frag"));
}

#[test]
fn header_name_grammar() {
    assert!(check_header_name("x-token"));
    assert!(check_header_name("X-Consul-Token"));
    assert!(check_header_name("user-agent"));
    assert!(check_header_name("a1!#$%&'*+-.^_`|~"));
    assert!(!check_header_name(""));
    assert!(!check_header_name("bad name"));
    assert!(!check_header_name("bad:name"));
    assert!(!check_header_name("bad/name"));
}

#[test]
fn header_value_grammar() {
    assert!(check_header_value(""));
    assert!(check_header_value("sublight/0.1.0"));
    assert!(check_header_value("a value\twith tab"));
    assert!(!check_header_value("line\nbreak"));
    assert!(!check_header_value("carriage\rreturn"));
    assert!(!check_header_value("\u{7f}"));
}

#[test]
fn header_names_compare_case_insensitively() {
    assert!(name_matches("x-token", "X-Token"));
    assert!(name_matches("USER-AGENT", "user-agent"));
    assert!(!name_matches("x-token", "x-tokens"));
    assert!(!name_matches("x-token", "x_token"));
}

#[test]
fn header_set_inserts_and_replaces() {
    let mut set = HeaderSet::new();
    assert!(set.is_empty());
    set.insert(String::from("x-one"), String::from("1"), false);
    set.insert(String::from("x-two"), String::from("2"), false);
    assert_eq!(set.len(), 2);
    set.insert(String::from("X-ONE"), String::from("one"), true);
    assert_eq!(set.len(), 2);
    let entry = set.entry_at(0);
    assert_eq!(entry.name, "X-ONE");
    assert_eq!(entry.value, "one");
    assert_eq!(entry.sensitive, true);
    assert_eq!(set.get("x-one").unwrap().as_str(), "one");
    assert!(set.contains("x-two"));
    assert!(!set.contains("x-three"));
}

#[test]
fn method_tokens() {
    assert_eq!(Method::Get.as_str(), "GET");
    assert_eq!(Method::Put.as_str(), "PUT");
    assert_eq!(Method::Post.as_str(), "POST");
    assert_eq!(Method::Delete.as_str(), "DELETE");
    assert_eq!(Method::Head.as_str(), "HEAD");
    assert_eq!(Method::Options.as_str(), "OPTIONS");
    assert_eq!(Method::Patch.as_str(), "PATCH");
}
