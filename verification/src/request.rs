//! The strict request-line parser: raw text lines in, a typed request or a
//! typed parse error out.

use vstd::prelude::*;
use vstd::string::*;
use crate::protocol::HttpMethod;
use crate::protocol::HttpRequestParseError;
use crate::protocol::HttpVersion;
use crate::protocol::Header;
use crate::protocol::spec_method_of;
use crate::protocol::spec_version_of;

verus! {

/// A parsed request. The path is stored verbatim: no decoding and no
/// normalization. The header sequence and body stay empty: this layer parses
/// only the request line, and no body framing is supported.
#[derive(Debug)]
pub struct HttpRequest {
    pub method: HttpMethod,
    pub path: String,
    pub version: HttpVersion,
    pub headers: Vec<Header>,
    pub body: String,
}

/// What parsing a line sequence must yield, at the specification level.
pub enum ParseOutcome {
    /// Method, path and version of the accepted request.
    Parsed(HttpMethod, Seq<char>, HttpVersion),
    /// The method token is outside the supported set.
    BadMethod,
    /// The version token is outside the supported set; the token itself.
    BadVersion(Seq<char>),
    /// No request line, or not exactly three tokens; the diagnostic message.
    Incomplete(Seq<char>),
}

/// One step of splitting: `s` is the unread input, `cur` the token being
/// read, `acc` the tokens already finished.
pub open spec fn spec_split_rec(s: Seq<char>, cur: Seq<char>, acc: Seq<Seq<char>>) -> Seq<
    Seq<char>,
>
    decreases s.len(),
{
    if s.len() == 0 {
        acc.push(cur)
    } else if s[0] == ' ' {
        spec_split_rec(s.drop_first(), Seq::empty(), acc.push(cur))
    } else {
        spec_split_rec(s.drop_first(), cur.push(s[0]), acc)
    }
}

/// The tokens of `s`, split on every single space. Empty tokens are kept:
/// a doubled space yields an empty token, so extra spaces change the token
/// count rather than being collapsed.
pub open spec fn spec_split_spaces(s: Seq<char>) -> Seq<Seq<char>> {
    spec_split_rec(s, Seq::empty(), Seq::empty())
}

/// The outcome that the parser owes for `lines`: the first line must split
/// into exactly three tokens, the first a supported method, the third a
/// supported version; the second is the path, taken verbatim.
pub open spec fn spec_parse_request(lines: Seq<Seq<char>>) -> ParseOutcome {
    if lines.len() == 0 {
        ParseOutcome::Incomplete("no request"@)
    } else {
        let toks = spec_split_spaces(lines[0]);
        if toks.len() != 3 {
            ParseOutcome::Incomplete("malformed or incomplete request"@)
        } else if spec_method_of(toks[0]) is None {
            ParseOutcome::BadMethod
        } else if spec_version_of(toks[2]) is None {
            ParseOutcome::BadVersion(toks[2])
        } else {
            ParseOutcome::Parsed(
                spec_method_of(toks[0])->0,
                toks[1],
                spec_version_of(toks[2])->0,
            )
        }
    }
}

/// For every line sequence whose request line splits into exactly three
/// tokens, the first a supported method token and the third a supported
/// version token, parsing succeeds and round-trips exactly: the returned
/// request carries that method, the path token verbatim, and that version.
pub proof fn lemma_parse_round_trip(lines: Seq<Seq<char>>)
    requires
        lines.len() > 0,
        spec_split_spaces(lines[0]).len() == 3,
        spec_method_of(spec_split_spaces(lines[0])[0]) is Some,
        spec_version_of(spec_split_spaces(lines[0])[2]) is Some,
    ensures
        spec_parse_request(lines) == ParseOutcome::Parsed(
            spec_method_of(spec_split_spaces(lines[0])[0])->0,
            spec_split_spaces(lines[0])[1],
            spec_version_of(spec_split_spaces(lines[0])[2])->0,
        ),
{
}

/// For every line sequence that is empty or whose request line does not
/// split into exactly three tokens, parsing fails as an incomplete request.
pub proof fn lemma_parse_wrong_token_count(lines: Seq<Seq<char>>)
    requires
        lines.len() == 0 || spec_split_spaces(lines[0]).len() != 3,
    ensures
        spec_parse_request(lines) matches ParseOutcome::Incomplete(_),
{
}

/// For every three-token request line whose method token is outside the
/// supported set — lookup being exact, so case is significant — parsing
/// fails with the unknown-method error.
pub proof fn lemma_parse_unknown_method(lines: Seq<Seq<char>>)
    requires
        lines.len() > 0,
        spec_split_spaces(lines[0]).len() == 3,
        spec_method_of(spec_split_spaces(lines[0])[0]) is None,
    ensures
        spec_parse_request(lines) == ParseOutcome::BadMethod,
{
}

/// For every three-token request line with a supported method whose version
/// token is outside the supported set, parsing fails with the
/// unsupported-version error carrying the original token.
pub proof fn lemma_parse_unsupported_version(lines: Seq<Seq<char>>)
    requires
        lines.len() > 0,
        spec_split_spaces(lines[0]).len() == 3,
        spec_method_of(spec_split_spaces(lines[0])[0]) is Some,
        spec_version_of(spec_split_spaces(lines[0])[2]) is None,
    ensures
        spec_parse_request(lines) == ParseOutcome::BadVersion(spec_split_spaces(lines[0])[2]),
{
}

/// Relies on `String::push`: appends exactly the one character.
#[verifier::external_body]
fn push_char(s: &mut String, c: char)
    ensures
        final(s)@ == old(s)@ + seq![c],
{
    s.push(c);
}

/// Compares two strings character by character.
pub(crate) fn str_eq(a: &str, b: &str) -> (r: bool)
    ensures
        r == (a@ == b@),
{
    let n = a.unicode_len();
    if n != b.unicode_len() {
        return false;
    }
    let mut i: usize = 0;
    while i < n
        invariant
            i <= n,
            n == a@.len(),
            n == b@.len(),
            forall|j: int| 0 <= j < i ==> a@[j] == b@[j],
        decreases n - i,
    {
        if a.get_char(i) != b.get_char(i) {
            return false;
        }
        i += 1;
    }
    proof {
        assert(a@ =~= b@);
    }
    true
}

impl HttpMethod {
    /// The method for a wire token, by exact closed-set lookup: an
    /// unrecognized token is rejected, never coerced.
    pub fn try_from(s: &str) -> (r: Result<HttpMethod, HttpRequestParseError>)
        ensures
            match r {
                Ok(m) => spec_method_of(s@) == Some(m),
                Err(e) => spec_method_of(s@) is None && (e matches
                HttpRequestParseError::UnknownMethod),
            },
    {
        if str_eq(s, "GET") {
            Ok(HttpMethod::GET)
        } else if str_eq(s, "POST") {
            Ok(HttpMethod::POST)
        } else {
            Err(HttpRequestParseError::UnknownMethod)
        }
    }
}

impl HttpVersion {
    /// The version for a wire token, by exact closed-set lookup: an
    /// unsupported token is rejected, retained verbatim for diagnostics.
    pub fn try_from(s: &str) -> (r: Result<HttpVersion, HttpRequestParseError>)
        ensures
            match r {
                Ok(v) => spec_version_of(s@) == Some(v),
                Err(e) => spec_version_of(s@) is None && (e matches
                HttpRequestParseError::UnsupportedVersion(t) && t@ == s@),
            },
    {
        if str_eq(s, "HTTP/1.0") {
            Ok(HttpVersion::Http10)
        } else if str_eq(s, "HTTP/1.1") {
            Ok(HttpVersion::Http11)
        } else {
            Err(HttpRequestParseError::UnsupportedVersion(String::from_str(s)))
        }
    }
}

/// Splits `line` on every single space, keeping empty tokens.
pub fn split_spaces(line: &str) -> (r: Vec<String>)
    ensures
        r.deep_view() == spec_split_spaces(line@),
{
    let n = line.unicode_len();
    let mut acc: Vec<String> = Vec::new();
    let mut cur = String::new();
    let mut i: usize = 0;
    proof {
        assert(acc.deep_view() =~= Seq::<Seq<char>>::empty());
        assert(line@.skip(0) =~= line@);
    }
    while i < n
        invariant
            i <= n,
            n == line@.len(),
            spec_split_rec(line@.skip(i as int), cur@, acc.deep_view()) == spec_split_spaces(
                line@,
            ),
        decreases n - i,
    {
        let ghost old_acc = acc.deep_view();
        let ghost old_cur = cur@;
        let c = line.get_char(i);
        proof {
            assert(line@.skip(i as int).drop_first() =~= line@.skip(i as int + 1));
            assert(line@.skip(i as int)[0] == line@[i as int]);
        }
        if c == ' ' {
            acc.push(cur);
            cur = String::new();
            proof {
                assert(acc.deep_view() =~= old_acc.push(old_cur));
            }
        } else {
            push_char(&mut cur, c);
            proof {
                assert(cur@ =~= old_cur.push(c));
            }
        }
        i += 1;
    }
    proof {
        assert(line@.skip(n as int) =~= Seq::<char>::empty());
    }
    let ghost final_acc = acc.deep_view();
    let ghost final_cur = cur@;
    acc.push(cur);
    proof {
        assert(acc.deep_view() =~= final_acc.push(final_cur));
    }
    acc
}

impl HttpRequest {
    /// Parses the request line, the first of `lines`, into a typed request.
    /// Later lines (header lines) are accepted but not interpreted: the
    /// resulting header sequence and body are always empty.
    pub fn try_from(lines: &Vec<String>) -> (r: Result<HttpRequest, HttpRequestParseError>)
        ensures
            match r {
                Ok(req) => {
                    &&& spec_parse_request(lines.deep_view()) == ParseOutcome::Parsed(
                        req.method,
                        req.path@,
                        req.version,
                    )
                    &&& req.headers@ =~= Seq::<Header>::empty()
                    &&& req.body@ =~= Seq::<char>::empty()
                },
                Err(e) => match e {
                    HttpRequestParseError::UnknownMethod => spec_parse_request(lines.deep_view())
                        == ParseOutcome::BadMethod,
                    HttpRequestParseError::UnsupportedVersion(t) => spec_parse_request(
                        lines.deep_view(),
                    ) == ParseOutcome::BadVersion(t@),
                    HttpRequestParseError::IncompleteRequest(m) => spec_parse_request(
                        lines.deep_view(),
                    ) == ParseOutcome::Incomplete(m@),
                },
            },
    {
        if lines.len() == 0 {
            proof {
                assert(lines.deep_view().len() == 0);
            }
            return Err(
                HttpRequestParseError::IncompleteRequest(String::from_str("no request")),
            );
        }
        let req_line: &String = &lines[0];
        proof {
            assert(lines.deep_view()[0] == req_line@);
        }
        let parts = split_spaces(req_line.as_str());
        if parts.len() != 3 {
            proof {
                assert(spec_split_spaces(req_line@).len() != 3);
            }
            return Err(
                HttpRequestParseError::IncompleteRequest(
                    String::from_str("malformed or incomplete request"),
                ),
            );
        }
        proof {
            assert(parts.deep_view()[0] == parts@[0]@);
            assert(parts.deep_view()[1] == parts@[1]@);
            assert(parts.deep_view()[2] == parts@[2]@);
        }
        let method = match HttpMethod::try_from(parts[0].as_str()) {
            Ok(m) => m,
            Err(e) => {
                return Err(e);
            },
        };
        let version = match HttpVersion::try_from(parts[2].as_str()) {
            Ok(v) => v,
            Err(e) => {
                return Err(e);
            },
        };
        let mut parts = parts;
        let path = parts.remove(1);
        Ok(
            HttpRequest {
                method,
                path,
                version,
                headers: Vec::new(),
                body: String::new(),
            },
        )
    }
}

} // verus!
