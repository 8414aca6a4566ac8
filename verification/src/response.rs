//! Typed responses, their wire-format serialization, and the builder that is
//! the only way to construct one.

use vstd::prelude::*;
use vstd::string::*;
use crate::decimal::spec_dec_str;
use crate::decimal::u64_to_dec;
use crate::protocol::Header;
use crate::protocol::HttpVersion;
use crate::protocol::StatusCode;
use crate::protocol::spec_status_code;
use crate::protocol::spec_status_reason;
use crate::protocol::spec_version_token;

verus! {

/// A fully resolved response. Values are only ever made by
/// [`HttpResponseBuilder::build`], so every field is resolved: no partially
/// constructed response exists.
pub struct HttpResponse {
    pub version: HttpVersion,
    pub status_code: StatusCode,
    pub reason: String,
    pub headers: Vec<Header>,
    pub body: Option<String>,
}

/// One emitted header line, without its terminator.
pub open spec fn spec_header_line(h: Header) -> Seq<char> {
    h.0@ + ": "@ + h.1@
}

/// The emitted header block: each header line followed by CRLF, in
/// insertion order; empty for zero headers.
pub open spec fn spec_header_lines(hs: Seq<Header>) -> Seq<char>
    decreases hs.len(),
{
    if hs.len() == 0 {
        Seq::empty()
    } else {
        spec_header_lines(hs.drop_last()) + spec_header_line(hs.last()) + "\r\n"@
    }
}

/// The status line: version, code and reason, space-separated.
pub open spec fn spec_status_line(r: HttpResponse) -> Seq<char> {
    spec_version_token(r.version) + " "@ + spec_dec_str(spec_status_code(r.status_code) as nat)
        + " "@ + r.reason@
}

/// The serialized body: an absent body serializes as empty text, never as an
/// omitted separator.
pub open spec fn spec_body_text(b: Option<String>) -> Seq<char> {
    match b {
        Some(s) => s@,
        None => Seq::empty(),
    }
}

/// Everything before the blank line: the status line with its CRLF, then
/// the header block, every line of which carries its own CRLF.
pub open spec fn spec_head_section(r: HttpResponse) -> Seq<char> {
    spec_status_line(r) + "\r\n"@ + spec_header_lines(r.headers@)
}

/// The full wire form: the head section, then the single blank line that
/// ends the headers, then the body — with zero headers the blank line
/// directly follows the status line, and it is never doubled.
pub open spec fn spec_response_text(r: HttpResponse) -> Seq<char> {
    spec_head_section(r) + "\r\n"@ + spec_body_text(r.body)
}

impl HttpResponse {
    /// The status line of this response.
    pub fn status_line(&self) -> (r: String)
        ensures
            r@ == spec_status_line(*self),
    {
        let mut s = String::from_str(self.version.to_string());
        s.append(" ");
        let code = u64_to_dec(self.status_code.to_code() as u64);
        s.append(code.as_str());
        s.append(" ");
        s.append(self.reason.as_str());
        proof {
            assert(s@ =~= spec_status_line(*self));
        }
        s
    }

    /// The full wire form of this response.
    pub fn response_text(&self) -> (r: String)
        ensures
            r@ == spec_response_text(*self),
    {
        let mut s = self.status_line();
        s.append("\r\n");
        let n = self.headers.len();
        let mut i: usize = 0;
        while i < n
            invariant
                i <= n,
                n == self.headers@.len(),
                s@ == spec_status_line(*self) + "\r\n"@ + spec_header_lines(
                    self.headers@.take(i as int),
                ),
            decreases n - i,
        {
            let h = &self.headers[i];
            s.append(h.0.as_str());
            s.append(": ");
            s.append(h.1.as_str());
            s.append("\r\n");
            proof {
                let hs = self.headers@;
                assert(hs.take(i as int + 1).drop_last() =~= hs.take(i as int));
                assert(hs.take(i as int + 1).last() == hs[i as int]);
                assert(s@ =~= spec_status_line(*self) + "\r\n"@ + spec_header_lines(
                    hs.take(i as int + 1),
                ));
            }
            i += 1;
        }
        proof {
            assert(self.headers@.take(n as int) =~= self.headers@);
        }
        s.append("\r\n");
        match &self.body {
            Some(b) => s.append(b.as_str()),
            None => (),
        }
        proof {
            assert(s@ =~= spec_response_text(*self));
        }
        s
    }
}

/// A serialized response always carries exactly one blank line before its
/// body, whatever the headers and body are: the head section — whose every
/// line, status line included, ends with its own CRLF — is followed by one
/// empty line at a single fixed place, so the four bytes around that place
/// read CRLF CRLF, and the body starts directly after. An empty or absent
/// body still follows the blank line, and zero headers never double it.
pub proof fn lemma_blank_line_separator(r: HttpResponse)
    ensures
        spec_response_text(r).len() == spec_head_section(r).len() + 2 + spec_body_text(
            r.body,
        ).len(),
        spec_head_section(r).len() >= 2,
        spec_response_text(r).subrange(
            spec_head_section(r).len() as int,
            spec_head_section(r).len() as int + 2,
        ) == "\r\n"@,
        spec_response_text(r).subrange(
            spec_head_section(r).len() as int - 2,
            spec_head_section(r).len() as int + 2,
        ) == "\r\n\r\n"@,
        spec_response_text(r).subrange(
            spec_head_section(r).len() as int + 2,
            spec_response_text(r).len() as int,
        ) == spec_body_text(r.body),
        spec_response_text(r).subrange(0, spec_head_section(r).len() as int)
            == spec_head_section(r),
{
    reveal_strlit("\r\n");
    reveal_strlit("\r\n\r\n");
    assert("\r\n"@.len() == 2);
    assert("\r\n\r\n"@.len() == 4);
    let head = spec_head_section(r);
    let text = spec_response_text(r);
    let k = head.len() as int;
    if r.headers@.len() == 0 {
        assert(spec_header_lines(r.headers@) =~= Seq::<char>::empty());
        assert(head =~= spec_status_line(r) + "\r\n"@);
        assert(head.subrange(k - 2, k) =~= "\r\n"@);
    } else {
        assert(spec_header_lines(r.headers@) == spec_header_lines(r.headers@.drop_last())
            + spec_header_line(r.headers@.last()) + "\r\n"@);
        assert(head.subrange(k - 2, k) =~= "\r\n"@);
    }
    assert(text.subrange(k, k + 2) =~= "\r\n"@);
    assert(text.subrange(k - 2, k + 2) =~= "\r\n\r\n"@);
    assert(text.subrange(k + 2, text.len() as int) =~= spec_body_text(r.body));
    assert(text.subrange(0, k) =~= head);
}

/// A fluent accumulator over the optional fields of a response; only
/// [`HttpResponseBuilder::build`] turns it into an [`HttpResponse`], resolving
/// every unset field to its default.
pub struct HttpResponseBuilder {
    pub status_code: StatusCode,
    pub version: Option<HttpVersion>,
    pub reason: Option<String>,
    pub headers: Option<Vec<Header>>,
    pub body: Option<String>,
}

impl HttpResponseBuilder {
    /// Starts a response with the given status and every optional field unset.
    pub fn new(status_code: StatusCode) -> (r: HttpResponseBuilder)
        ensures
            r.status_code == status_code,
            r.version is None,
            r.reason is None,
            r.headers is None,
            r.body is None,
    {
        HttpResponseBuilder {
            status_code,
            version: None,
            reason: None,
            headers: None,
            body: None,
        }
    }

    /// Replaces the version field.
    pub fn set_version(self, v: Option<HttpVersion>) -> (r: HttpResponseBuilder)
        ensures
            r.version == v,
            r.status_code == self.status_code,
            r.reason == self.reason,
            r.headers == self.headers,
            r.body == self.body,
    {
        HttpResponseBuilder { version: v, ..self }
    }

    /// Replaces the reason field.
    pub fn set_reason(self, reason: Option<String>) -> (r: HttpResponseBuilder)
        ensures
            r.reason == reason,
            r.status_code == self.status_code,
            r.version == self.version,
            r.headers == self.headers,
            r.body == self.body,
    {
        HttpResponseBuilder { reason, ..self }
    }

    /// Replaces the whole header sequence.
    pub fn set_headers(self, hs: Option<Vec<Header>>) -> (r: HttpResponseBuilder)
        ensures
            r.headers == hs,
            r.status_code == self.status_code,
            r.version == self.version,
            r.reason == self.reason,
            r.body == self.body,
    {
        HttpResponseBuilder { headers: hs, ..self }
    }

    /// Appends one header to whatever sequence exists so far, preserving
    /// insertion order; an unset sequence counts as empty.
    pub fn add_header(self, header: Header) -> (r: HttpResponseBuilder)
        ensures
            r.headers is Some,
            r.headers->0@ == (match self.headers {
                Some(hs) => hs@,
                None => Seq::<Header>::empty(),
            }).push(header),
            r.status_code == self.status_code,
            r.version == self.version,
            r.reason == self.reason,
            r.body == self.body,
    {
        let mut headers = match self.headers {
            Some(headers) => headers,
            None => Vec::new(),
        };
        headers.push(header);
        HttpResponseBuilder {
            status_code: self.status_code,
            version: self.version,
            reason: self.reason,
            headers: Some(headers),
            body: self.body,
        }
    }

    /// Replaces the body field.
    pub fn set_body(self, b: Option<String>) -> (r: HttpResponseBuilder)
        ensures
            r.body == b,
            r.status_code == self.status_code,
            r.version == self.version,
            r.reason == self.reason,
            r.headers == self.headers,
    {
        HttpResponseBuilder { body: b, ..self }
    }

    /// The single terminal step: resolves every unset field — version to
    /// HTTP/1.1, reason to the status code's canonical reason, headers to the
    /// empty sequence — and yields the finished response.
    pub fn build(self) -> (r: HttpResponse)
        ensures
            r.status_code == self.status_code,
            r.version == (match self.version {
                Some(v) => v,
                None => HttpVersion::Http11,
            }),
            r.reason@ == (match self.reason {
                Some(s) => s@,
                None => spec_status_reason(self.status_code),
            }),
            r.headers@ == (match self.headers {
                Some(hs) => hs@,
                None => Seq::<Header>::empty(),
            }),
            r.body == self.body,
    {
        let version = match self.version {
            Some(v) => v,
            None => HttpVersion::Http11,
        };
        let reason = match self.reason {
            Some(s) => s,
            None => String::from_str(self.status_code.to_reason()),
        };
        let headers = match self.headers {
            Some(hs) => hs,
            None => Vec::new(),
        };
        proof {
            assert(headers@ =~= (match self.headers {
                Some(hs) => hs@,
                None => Seq::<Header>::empty(),
            }));
        }
        HttpResponse {
            version,
            status_code: self.status_code,
            reason,
            headers,
            body: self.body,
        }
    }
}

} // verus!
