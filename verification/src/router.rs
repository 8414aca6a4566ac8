//! The route table and the worker's decision logic: which file a request is
//! answered from, and the full wire text of each kind of response.
//!
//! The table is built once at startup and only read afterwards; a lookup is
//! an exact string match on the path, first registered match wins, and every
//! unmatched path falls back to the single fallback file served as 404.

use vstd::prelude::*;
use vstd::string::*;
use vstd::utf8::encode_utf8;
use crate::decimal::spec_dec_str;
use crate::decimal::u64_to_dec;
use crate::protocol::HttpVersion;
use crate::protocol::StatusCode;
use crate::protocol::spec_status_code;
use crate::protocol::spec_status_reason;
use crate::protocol::spec_version_token;
use crate::request::HttpRequest;
use crate::request::ParseOutcome;
use crate::request::spec_parse_request;
use crate::request::str_eq;
use crate::response::HttpResponseBuilder;

verus! {

/// An ordered sequence of (exact path, file) routes plus exactly one
/// fallback file. Immutable after startup by convention: nothing here
/// mutates it once workers share it.
pub struct RouteTable {
    /// Registered routes, in insertion order; the first whose path matches
    /// exactly wins.
    pub routes: Vec<(String, String)>,
    /// The file served, with status 404, for every unmatched path.
    pub fallback: String,
}

/// The file of the first route whose path equals `path` exactly, if any.
pub open spec fn spec_lookup(routes: Seq<(String, String)>, path: Seq<char>) -> Option<Seq<char>>
    decreases routes.len(),
{
    if routes.len() == 0 {
        None
    } else if routes[0].0@ == path {
        Some(routes[0].1@)
    } else {
        spec_lookup(routes.drop_first(), path)
    }
}

/// The byte length of text, as it goes on the wire.
pub open spec fn spec_byte_len(s: Seq<char>) -> nat {
    encode_utf8(s).len()
}

/// The wire text of the response built for a file read: the given version
/// and status with its canonical reason, exactly one `Content-Length` header
/// holding the decimal byte length of the body, and the file's contents as
/// the body.
pub open spec fn spec_file_response_text(
    version: HttpVersion,
    status: StatusCode,
    contents: Seq<char>,
) -> Seq<char> {
    spec_version_token(version) + " "@ + spec_dec_str(spec_status_code(status) as nat) + " "@
        + spec_status_reason(status) + "\r\n"@ + "Content-Length"@ + ": "@ + spec_dec_str(
        spec_byte_len(contents),
    ) + "\r\n"@ + "\r\n"@ + contents
}

/// The wire text of the bare response sent for any parse failure: HTTP/1.1,
/// status 400 with its canonical reason, no headers, no body — the status
/// line, then the single blank line that ends the empty header block.
pub open spec fn spec_bad_request_text() -> Seq<char> {
    spec_version_token(HttpVersion::Http11) + " "@ + spec_dec_str(400) + " "@
        + spec_status_reason(StatusCode::BadRequest) + "\r\n"@ + "\r\n"@
}

impl RouteTable {
    /// A table with no routes yet and the given fallback file.
    pub fn new(fallback: String) -> (r: RouteTable)
        ensures
            r.routes@ =~= Seq::<(String, String)>::empty(),
            r.fallback == fallback,
    {
        RouteTable { routes: Vec::new(), fallback }
    }

    /// Registers one route after all existing ones: requests whose path
    /// equals `path` exactly are answered from `file`.
    pub fn add_route(&mut self, path: String, file: String)
        ensures
            final(self).routes@ == old(self).routes@.push((path, file)),
            final(self).fallback == old(self).fallback,
    {
        self.routes.push((path, file));
    }

    /// The file to answer `path` from, and the status of that answer: the
    /// first exact match with 200, or the fallback file with 404.
    pub fn resolve(&self, path: &str) -> (r: (String, StatusCode))
        ensures
            match spec_lookup(self.routes@, path@) {
                Some(f) => r.0@ == f && r.1 == StatusCode::Success,
                None => r.0@ == self.fallback@ && r.1 == StatusCode::NotFound,
            },
    {
        let n = self.routes.len();
        let mut i: usize = 0;
        proof {
            assert(self.routes@.skip(0) =~= self.routes@);
        }
        while i < n
            invariant
                i <= n,
                n == self.routes@.len(),
                spec_lookup(self.routes@.skip(i as int), path@) == spec_lookup(
                    self.routes@,
                    path@,
                ),
            decreases n - i,
        {
            proof {
                assert(self.routes@.skip(i as int).drop_first() =~= self.routes@.skip(
                    i as int + 1,
                ));
                assert(self.routes@.skip(i as int)[0] == self.routes@[i as int]);
            }
            let rt = &self.routes[i];
            if str_eq(rt.0.as_str(), path) {
                return (rt.1.clone(), StatusCode::Success);
            }
            i += 1;
        }
        proof {
            assert(self.routes@.skip(n as int) =~= Seq::<(String, String)>::empty());
        }
        (self.fallback.clone(), StatusCode::NotFound)
    }
}

/// A lookup hits if and only if some registered route's path equals the
/// requested path exactly; so a registered path is always answered from a
/// route's file with status 200, and an unregistered one always falls back
/// with status 404.
pub proof fn lemma_lookup_hits_iff_registered(routes: Seq<(String, String)>, path: Seq<char>)
    ensures
        (spec_lookup(routes, path) is Some) <==> exists|i: int|
            0 <= i < routes.len() && routes[i].0@ == path,
    decreases routes.len(),
{
    if routes.len() == 0 {
    } else if routes[0].0@ == path {
        assert(0 <= 0 < routes.len() && routes[0].0@ == path);
    } else {
        lemma_lookup_hits_iff_registered(routes.drop_first(), path);
        if spec_lookup(routes, path) is Some {
            let j = choose|j: int|
                0 <= j < routes.drop_first().len() && routes.drop_first()[j].0@ == path;
            assert(routes[j + 1].0@ == path);
        }
        if exists|i: int| 0 <= i < routes.len() && routes[i].0@ == path {
            let i = choose|i: int| 0 <= i < routes.len() && routes[i].0@ == path;
            assert(routes.drop_first()[i - 1].0@ == path);
        }
    }
}

/// What a worker must do next for one connection, once the received lines
/// are in hand and before any filesystem work.
pub enum Plan {
    /// Read `file` and send the file response with this status and the
    /// request's version.
    ReadFile { file: String, status: StatusCode, version: HttpVersion },
    /// Send `text` as the whole response; the filesystem is not consulted.
    Reply { text: String },
}

/// The wire text of the bare 400 response, built through the builder.
pub fn bad_request_response() -> (r: String)
    ensures
        r@ == spec_bad_request_text(),
{
    let resp = HttpResponseBuilder::new(StatusCode::BadRequest).build();
    let text = resp.response_text();
    proof {
        assert(text@ =~= spec_bad_request_text());
    }
    text
}

/// The full response for a file read: `contents` as the body, one
/// `Content-Length` header equal to its byte length, the given status with
/// its canonical reason, and the given version.
#[verifier::rlimit(50)]
pub fn file_response(version: HttpVersion, status: StatusCode, contents: String) -> (r: String)
    requires
        spec_byte_len(contents@) <= usize::MAX,
    ensures
        r@ == spec_file_response_text(version, status, contents@),
{
    let len = contents.as_str().len();
    let length_text = u64_to_dec(len as u64);
    let resp = HttpResponseBuilder::new(status).set_body(Some(contents)).set_version(
        Some(version),
    ).add_header((String::from_str("Content-Length"), length_text)).build();
    let text = resp.response_text();
    proof {
        let hs = resp.headers@;
        assert(hs.len() == 1);
        assert(hs.drop_last() =~= Seq::<crate::protocol::Header>::empty());
        assert(crate::response::spec_header_lines(Seq::<crate::protocol::Header>::empty())
            == Seq::<char>::empty());
        assert(crate::response::spec_header_lines(hs) =~= crate::response::spec_header_line(
            hs.last(),
        ) + "\r\n"@);
        assert(text@ =~= spec_file_response_text(version, status, resp.body->0@));
    }
    text
}

/// Decides a connection's handling from its received lines: a parse failure
/// is answered 400 directly and never reaches the route table; a parsed
/// request is routed by its path alone to a file and a status, keeping the
/// request's own version for the reply.
pub fn plan_request(lines: &Vec<String>, table: &RouteTable) -> (p: Plan)
    ensures
        match spec_parse_request(lines.deep_view()) {
            ParseOutcome::Parsed(m, path, v) => match p {
                Plan::ReadFile { file, status, version } => {
                    &&& version == v
                    &&& match spec_lookup(table.routes@, path) {
                        Some(f) => file@ == f && status == StatusCode::Success,
                        None => file@ == table.fallback@ && status == StatusCode::NotFound,
                    }
                },
                Plan::Reply { .. } => false,
            },
            _ => p matches Plan::Reply { text } && text@ == spec_bad_request_text(),
        },
{
    match HttpRequest::try_from(lines) {
        Ok(req) => {
            let (file, status) = table.resolve(req.path.as_str());
            Plan::ReadFile { file, status, version: req.version }
        },
        Err(_) => Plan::Reply { text: bad_request_response() },
    }
}

} // verus!
