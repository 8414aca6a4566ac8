use mini_http::protocol::HttpMethod;
use mini_http::protocol::HttpRequestParseError;
use mini_http::protocol::HttpVersion;
use mini_http::request::HttpRequest;
use mini_http::request::split_spaces;

fn lines(v: &[&str]) -> Vec<String> {
    v.iter().map(|s| s.to_string()).collect()
}

#[test]
fn parse_get_roundtrip() {
    let req = HttpRequest::try_from(&lines(&["GET /index.html HTTP/1.1"])).unwrap();
    assert_eq!(req.method, HttpMethod::GET);
    assert_eq!(req.path, "/index.html");
    assert_eq!(req.version, HttpVersion::Http11);
    assert!(req.headers.is_empty());
    assert_eq!(req.body, "");
}

#[test]
fn parse_post_http10_roundtrip() {
    let req = HttpRequest::try_from(&lines(&["POST /submit HTTP/1.0"])).unwrap();
    assert_eq!(req.method, HttpMethod::POST);
    assert_eq!(req.path, "/submit");
    assert_eq!(req.version, HttpVersion::Http10);
}

#[test]
fn parse_header_lines_are_ignored() {
    let req =
        HttpRequest::try_from(&lines(&["GET / HTTP/1.1", "Host: localhost"])).unwrap();
    assert_eq!(req.path, "/");
    assert!(req.headers.is_empty());
}

#[test]
fn parse_no_lines_is_incomplete() {
    match HttpRequest::try_from(&lines(&[])) {
        Err(HttpRequestParseError::IncompleteRequest(m)) => assert_eq!(m, "no request"),
        _ => panic!("expected IncompleteRequest"),
    }
}

#[test]
fn parse_two_tokens_is_incomplete() {
    match HttpRequest::try_from(&lines(&["GET /"])) {
        Err(HttpRequestParseError::IncompleteRequest(m)) => {
            assert_eq!(m, "malformed or incomplete request")
        }
        _ => panic!("expected IncompleteRequest"),
    }
}

#[test]
fn parse_four_tokens_is_incomplete() {
    match HttpRequest::try_from(&lines(&["GET / HTTP/1.1 extra"])) {
        Err(HttpRequestParseError::IncompleteRequest(_)) => {}
        _ => panic!("expected IncompleteRequest"),
    }
}

#[test]
fn parse_double_space_is_incomplete() {
    // A doubled space yields an empty fourth token: the split is strict,
    // spaces are never collapsed.
    match HttpRequest::try_from(&lines(&["GET  / HTTP/1.1"])) {
        Err(HttpRequestParseError::IncompleteRequest(_)) => {}
        _ => panic!("expected IncompleteRequest"),
    }
}

#[test]
fn parse_unknown_method() {
    match HttpRequest::try_from(&lines(&["BOGUS / HTTP/1.1"])) {
        Err(HttpRequestParseError::UnknownMethod) => {}
        _ => panic!("expected UnknownMethod"),
    }
}

#[test]
fn parse_lowercase_method_rejected() {
    match HttpRequest::try_from(&lines(&["get / HTTP/1.1"])) {
        Err(HttpRequestParseError::UnknownMethod) => {}
        _ => panic!("expected UnknownMethod"),
    }
}

#[test]
fn parse_unsupported_version_keeps_token() {
    match HttpRequest::try_from(&lines(&["GET / HTTP/2.0"])) {
        Err(HttpRequestParseError::UnsupportedVersion(t)) => assert_eq!(t, "HTTP/2.0"),
        _ => panic!("expected UnsupportedVersion"),
    }
}

#[test]
fn parse_lowercase_version_rejected() {
    match HttpRequest::try_from(&lines(&["GET / http/1.1"])) {
        Err(HttpRequestParseError::UnsupportedVersion(t)) => assert_eq!(t, "http/1.1"),
        _ => panic!("expected UnsupportedVersion"),
    }
}

#[test]
fn method_token_lookup() {
    assert_eq!(HttpMethod::try_from("GET").unwrap(), HttpMethod::GET);
    assert_eq!(HttpMethod::try_from("POST").unwrap(), HttpMethod::POST);
    assert!(matches!(
        HttpMethod::try_from("PUT"),
        Err(HttpRequestParseError::UnknownMethod)
    ));
    assert!(matches!(
        HttpMethod::try_from("Get"),
        Err(HttpRequestParseError::UnknownMethod)
    ));
}

#[test]
fn version_token_lookup() {
    assert_eq!(HttpVersion::try_from("HTTP/1.0").unwrap(), HttpVersion::Http10);
    assert_eq!(HttpVersion::try_from("HTTP/1.1").unwrap(), HttpVersion::Http11);
    match HttpVersion::try_from("HTTP/1.2") {
        Err(HttpRequestParseError::UnsupportedVersion(t)) => assert_eq!(t, "HTTP/1.2"),
        _ => panic!("expected UnsupportedVersion"),
    }
}

#[test]
fn split_keeps_empty_tokens() {
    let toks = split_spaces("a  b ");
    assert_eq!(toks, vec!["a", "", "b", ""]);
    let toks = split_spaces("");
    assert_eq!(toks, vec![""]);
    let toks = split_spaces("one");
    assert_eq!(toks, vec!["one"]);
}
