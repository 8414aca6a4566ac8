//! Whole-path exercises: raw request text in, full response text out, with
//! the filesystem read played by a fixed string, as a worker would do it.

use mini_http::router::file_response;
use mini_http::router::plan_request;
use mini_http::router::Plan;
use mini_http::router::RouteTable;

/// The lines a worker hands the parser: each CRLF-terminated line of the raw
/// request, up to but not including the blank line that ends the headers.
fn received_lines(raw: &str) -> Vec<String> {
    raw.split("\r\n")
        .take_while(|line| !line.is_empty())
        .map(|line| line.to_string())
        .collect()
}

fn table() -> RouteTable {
    let mut t = RouteTable::new("404.html".to_string());
    t.add_route("/".to_string(), "index.html".to_string());
    t
}

/// One connection, end to end: decide from the lines, read the planned file
/// from `disk`, serialize.
fn respond(raw: &str, disk: &[(&str, &str)]) -> String {
    match plan_request(&received_lines(raw), &table()) {
        Plan::ReadFile { file, status, version } => {
            let contents = disk
                .iter()
                .find(|(name, _)| *name == file)
                .expect("planned file must be on disk")
                .1
                .to_string();
            file_response(version, status, contents)
        }
        Plan::Reply { text } => text,
    }
}

#[test]
fn root_path_serves_registered_file() {
    let response = respond("GET / HTTP/1.1\r\n\r\n", &[("index.html", "hello")]);
    assert!(response.starts_with("HTTP/1.1 200 OK"));
    assert!(response.contains("Content-Length: 5"));
    assert!(response.ends_with("hello"));
    assert_eq!(response, "HTTP/1.1 200 OK\r\nContent-Length: 5\r\n\r\nhello");
}

#[test]
fn unregistered_path_serves_fallback_as_404() {
    let response = respond(
        "GET /nope HTTP/1.1\r\n\r\n",
        &[("index.html", "hello"), ("404.html", "missing")],
    );
    assert!(response.starts_with("HTTP/1.1 404 Not Found"));
    assert!(response.ends_with("missing"));
    assert_eq!(
        response,
        "HTTP/1.1 404 Not Found\r\nContent-Length: 7\r\n\r\nmissing"
    );
}

#[test]
fn bogus_method_yields_bare_400() {
    let response = respond("BOGUS / HTTP/1.1\r\n\r\n", &[("index.html", "hello")]);
    // Status line, empty header section, blank-line separator, empty body.
    assert_eq!(response, "HTTP/1.1 400 Bad Request\r\n\r\n");
}

#[test]
fn request_version_is_echoed() {
    let response = respond("GET / HTTP/1.0\r\n\r\n", &[("index.html", "hello")]);
    assert!(response.starts_with("HTTP/1.0 200 OK"));
}
