//! Value types of the protocol layer: method, version, status code, header,
//! and the parse-error taxonomy.

use vstd::prelude::*;

verus! {

/// One response or request header: an ordered (name, value) pair.
/// Headers are kept as an ordered sequence, never a map: duplicate names are
/// legal and emission order is preserved.
pub type Header = (String, String);

/// A request method, from the closed supported set.
#[derive(Clone, Copy, Debug, PartialEq, Eq, Structural)]
pub enum HttpMethod {
    GET,
    POST,
}

/// A protocol version, from the closed supported set.
#[derive(Clone, Copy, Debug, PartialEq, Eq, Structural)]
pub enum HttpVersion {
    Http10,
    Http11,
}

/// A response status, carrying both its numeric code and canonical reason.
#[derive(Clone, Copy, Debug, PartialEq, Eq, Structural)]
pub enum StatusCode {
    Success,
    NotFound,
    BadRequest,
}

/// Why a request failed to parse.
#[derive(Debug)]
pub enum HttpRequestParseError {
    /// The method token is outside the supported set.
    UnknownMethod,
    /// The version token is outside the supported set; the offending token is
    /// retained for diagnostics.
    UnsupportedVersion(String),
    /// The request line is missing or does not split into exactly three tokens.
    IncompleteRequest(String),
}

/// The wire token of a method.
pub open spec fn spec_method_token(m: HttpMethod) -> Seq<char> {
    match m {
        HttpMethod::GET => "GET"@,
        HttpMethod::POST => "POST"@,
    }
}

/// The method whose wire token is `s`, if any; lookup is exact and
/// case-significant.
pub open spec fn spec_method_of(s: Seq<char>) -> Option<HttpMethod> {
    if s == "GET"@ {
        Some(HttpMethod::GET)
    } else if s == "POST"@ {
        Some(HttpMethod::POST)
    } else {
        None
    }
}

/// The wire token of a version.
pub open spec fn spec_version_token(v: HttpVersion) -> Seq<char> {
    match v {
        HttpVersion::Http10 => "HTTP/1.0"@,
        HttpVersion::Http11 => "HTTP/1.1"@,
    }
}

/// The version whose wire token is `s`, if any; lookup is exact and
/// case-significant.
pub open spec fn spec_version_of(s: Seq<char>) -> Option<HttpVersion> {
    if s == "HTTP/1.0"@ {
        Some(HttpVersion::Http10)
    } else if s == "HTTP/1.1"@ {
        Some(HttpVersion::Http11)
    } else {
        None
    }
}

/// The numeric code of a status.
pub open spec fn spec_status_code(s: StatusCode) -> u16 {
    match s {
        StatusCode::Success => 200,
        StatusCode::NotFound => 404,
        StatusCode::BadRequest => 400,
    }
}

/// The canonical reason phrase of a status.
pub open spec fn spec_status_reason(s: StatusCode) -> Seq<char> {
    match s {
        StatusCode::Success => "OK"@,
        StatusCode::NotFound => "Not Found"@,
        StatusCode::BadRequest => "Bad Request"@,
    }
}

impl HttpVersion {
    /// The wire token of this version.
    pub fn to_string(self: &HttpVersion) -> (r: &'static str)
        ensures
            r@ == spec_version_token(*self),
    {
        match *self {
            HttpVersion::Http10 => "HTTP/1.0",
            HttpVersion::Http11 => "HTTP/1.1",
        }
    }
}

impl StatusCode {
    /// The canonical reason phrase of this status; the numeric code and the
    /// reason can never disagree, both being functions of the variant.
    pub fn to_reason(&self) -> (r: &'static str)
        ensures
            r@ == spec_status_reason(*self),
    {
        match self {
            StatusCode::Success => "OK",
            StatusCode::BadRequest => "Bad Request",
            StatusCode::NotFound => "Not Found",
        }
    }

    /// The numeric code of this status.
    pub fn to_code(&self) -> (r: u16)
        ensures
            r == spec_status_code(*self),
    {
        match self {
            StatusCode::Success => 200,
            StatusCode::BadRequest => 400,
            StatusCode::NotFound => 404,
        }
    }
}

} // verus!
