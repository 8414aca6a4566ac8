use mini_http::protocol::HttpVersion;
use mini_http::protocol::StatusCode;
use mini_http::router::file_response;
use mini_http::router::plan_request;
use mini_http::router::Plan;
use mini_http::router::RouteTable;

fn table() -> RouteTable {
    let mut t = RouteTable::new("404.html".to_string());
    t.add_route("/".to_string(), "index.html".to_string());
    t.add_route("/about".to_string(), "about.html".to_string());
    t
}

fn lines(v: &[&str]) -> Vec<String> {
    v.iter().map(|s| s.to_string()).collect()
}

#[test]
fn resolve_registered_path_is_200() {
    let (file, status) = table().resolve("/");
    assert_eq!(file, "index.html");
    assert_eq!(status, StatusCode::Success);
    let (file, status) = table().resolve("/about");
    assert_eq!(file, "about.html");
    assert_eq!(status, StatusCode::Success);
}

#[test]
fn resolve_unregistered_path_is_404_fallback() {
    let (file, status) = table().resolve("/nope");
    assert_eq!(file, "404.html");
    assert_eq!(status, StatusCode::NotFound);
}

#[test]
fn resolve_is_exact_match_only() {
    let (file, status) = table().resolve("/about/");
    assert_eq!(file, "404.html");
    assert_eq!(status, StatusCode::NotFound);
}

#[test]
fn resolve_first_match_wins() {
    let mut t = RouteTable::new("404.html".to_string());
    t.add_route("/x".to_string(), "first.html".to_string());
    t.add_route("/x".to_string(), "second.html".to_string());
    let (file, status) = t.resolve("/x");
    assert_eq!(file, "first.html");
    assert_eq!(status, StatusCode::Success);
}

#[test]
fn plan_routes_parsed_request_by_path() {
    match plan_request(&lines(&["GET /about HTTP/1.0"]), &table()) {
        Plan::ReadFile { file, status, version } => {
            assert_eq!(file, "about.html");
            assert_eq!(status, StatusCode::Success);
            assert_eq!(version, HttpVersion::Http10);
        }
        Plan::Reply { .. } => panic!("expected ReadFile"),
    }
}

#[test]
fn plan_answers_parse_failure_directly() {
    match plan_request(&lines(&["BOGUS / HTTP/1.1"]), &table()) {
        Plan::Reply { text } => assert_eq!(text, "HTTP/1.1 400 Bad Request\r\n\r\n"),
        Plan::ReadFile { .. } => panic!("a failed parse must never reach the router"),
    }
}

#[test]
fn file_response_content_length_is_exact() {
    let text = file_response(HttpVersion::Http11, StatusCode::Success, "hello".to_string());
    assert_eq!(text, "HTTP/1.1 200 OK\r\nContent-Length: 5\r\n\r\nhello");
}

#[test]
fn file_response_content_length_counts_bytes_not_chars() {
    // "héllo" is five characters but six bytes on the wire.
    let text = file_response(HttpVersion::Http11, StatusCode::Success, "h\u{e9}llo".to_string());
    assert_eq!(text, "HTTP/1.1 200 OK\r\nContent-Length: 6\r\n\r\nh\u{e9}llo");
}

#[test]
fn file_response_empty_body() {
    let text = file_response(HttpVersion::Http10, StatusCode::NotFound, String::new());
    assert_eq!(text, "HTTP/1.0 404 Not Found\r\nContent-Length: 0\r\n\r\n");
}
