//! The HTTP-shaped surface of one invocation: the immutable incoming
//! request and the response builder.
//!
//! The response accumulates a status code (default 200), an optional
//! content type, a header mapping (keys unique, last write wins), and a
//! body that is one of: empty, text, a JSON-serialized value, or raw
//! bytes. Every setter may be called repeatedly; the last call wins and
//! a failing setter leaves the state exactly as it was.

use crate::json::{encode, encode_spec, Json};
use crate::text::str_eq;
use vstd::prelude::*;
use vstd::string::StrSliceExecFns;
use vstd::string::StringExecFns;

verus! {

/// The request method, a closed enumeration.
#[derive(Clone, Copy, Debug, PartialEq, Eq, Structural)]
pub enum Method {
    Get,
    Post,
    Put,
    Delete,
    Head,
    Options,
    Patch,
}

/// Mathematical view of a request.
#[verifier::ext_equal]
pub struct RequestView {
    pub method: Method,
    pub path: Seq<char>,
    pub query: Seq<char>,
    pub headers: Seq<(Seq<char>, Seq<char>)>,
    pub body: Seq<u8>,
}

/// The immutable view of the incoming request: method, URL path, query
/// string (empty when absent) and raw body. Read-only to handler logic.
#[derive(Debug)]
pub struct Request {
    pub method: Method,
    pub path: String,
    pub query: String,
    pub headers: Vec<(String, String)>,
    pub body: Vec<u8>,
}

impl View for Request {
    type V = RequestView;

    open spec fn view(&self) -> RequestView {
        RequestView {
            method: self.method,
            path: self.path@,
            query: self.query@,
            headers: self.headers@.map_values(|p: (String, String)| (p.0@, p.1@)),
            body: self.body@,
        }
    }
}

/// The full URL of a request: the path, then `?` and the query when a
/// query is present.
pub open spec fn url_of(r: RequestView) -> Seq<char> {
    if r.query.len() == 0 {
        r.path
    } else {
        r.path + seq!['?'] + r.query
    }
}

impl Request {
    /// Bundles the parts of an incoming request.
    pub fn new(
        method: Method,
        path: String,
        query: String,
        headers: Vec<(String, String)>,
        body: Vec<u8>,
    ) -> (r: Request)
        ensures
            r@ == (RequestView {
                method,
                path: path@,
                query: query@,
                headers: headers@.map_values(|p: (String, String)| (p.0@, p.1@)),
                body: body@,
            }),
    {
        Request { method, path, query, headers, body }
    }

    /// The full URL as a string.
    pub fn url(&self) -> (u: String)
        ensures
            u@ == url_of(self@),
    {
        if self.query.as_str().unicode_len() == 0 {
            self.path.clone()
        } else {
            let mut u = self.path.clone();
            u.append("?");
            u.append(self.query.as_str());
            proof {
                reveal_strlit("?");
                assert(u@ =~= url_of(self@));
            }
            u
        }
    }
}

/// Mathematical view of a response body.
#[verifier::ext_equal]
pub enum BodyView {
    Empty,
    Text(Seq<char>),
    Json(Seq<char>),
    Bytes(Seq<u8>),
}

/// A response body: nothing yet, text, a JSON-serialized value, or raw
/// bytes. The kinds are mutually exclusive; setting one replaces another.
#[derive(Debug)]
pub enum Body {
    Empty,
    Text(String),
    Json(String),
    Bytes(Vec<u8>),
}

impl View for Body {
    type V = BodyView;

    open spec fn view(&self) -> BodyView {
        match self {
            Body::Empty => BodyView::Empty,
            Body::Text(s) => BodyView::Text(s@),
            Body::Json(s) => BodyView::Json(s@),
            Body::Bytes(b) => BodyView::Bytes(b@),
        }
    }
}

/// The bytes a body contributes to the outgoing response.
pub open spec fn body_bytes_spec(b: BodyView) -> Seq<u8> {
    match b {
        BodyView::Empty => Seq::empty(),
        BodyView::Text(s) => vstd::utf8::encode_utf8(s),
        BodyView::Json(s) => vstd::utf8::encode_utf8(s),
        BodyView::Bytes(v) => v,
    }
}

/// Whether a character may appear in a header value: horizontal tab,
/// space, or a visible ASCII character.
pub open spec fn header_char_ok(c: char) -> bool {
    c == '\t' || (32 <= c as u32 && c as u32 <= 126)
}

/// Whether a string is a well-formed header value: every character of it
/// is allowed in a header value.
pub open spec fn header_value_ok(s: Seq<char>) -> bool
    decreases s.len(),
{
    s.len() == 0 || (header_char_ok(s.last()) && header_value_ok(s.drop_last()))
}

/// Whether a character may appear in a header name: a visible ASCII
/// character other than the colon.
pub open spec fn name_char_ok(c: char) -> bool {
    33 <= c as u32 && c as u32 <= 126 && c != ':'
}

/// Whether a string is a well-formed header name: nonempty, every
/// character allowed in a header name.
pub open spec fn header_name_ok(s: Seq<char>) -> bool
    decreases s.len(),
{
    s.len() > 0 && name_char_ok(s.last()) && (s.len() == 1 || header_name_ok(s.drop_last()))
}

/// A malformed header name or value handed to a response setter.
#[derive(Clone, Copy, Debug, PartialEq, Eq, Structural)]
pub enum HeaderError {
    InvalidName,
    InvalidValue,
}

/// A response body value that could not be serialized.
#[derive(Clone, Copy, Debug, PartialEq, Eq, Structural)]
pub struct SerializationError {}

/// Checks a header value at runtime.
#[verifier::loop_isolation(false)]
fn check_header_value(s: &str) -> (r: bool)
    ensures
        r == header_value_ok(s@),
{
    let len = s.unicode_len();
    let mut i: usize = 0;
    while i < len
        invariant
            i <= len,
            header_value_ok(s@.subrange(0, i as int)),
        decreases len - i,
    {
        let c = s.get_char(i);
        let u = c as u32;
        if !(u == 9 || (32 <= u && u <= 126)) {
            proof {
                lemma_value_not_ok(s@, i as int);
            }
            return false;
        }
        proof {
            assert(s@.subrange(0, i + 1 as int).drop_last() =~= s@.subrange(0, i as int));
        }
        i = i + 1;
    }
    proof {
        assert(s@.subrange(0, len as int) =~= s@);
    }
    true
}

/// A string with a bad character at position `i` is not a well-formed
/// header value.
proof fn lemma_value_not_ok(s: Seq<char>, i: int)
    requires
        0 <= i < s.len(),
        !header_char_ok(s[i]),
    ensures
        !header_value_ok(s),
    decreases s.len(),
{
    if i < s.len() - 1 {
        assert(s.drop_last()[i] == s[i]);
        lemma_value_not_ok(s.drop_last(), i);
    }
}

/// Checks a header name at runtime.
#[verifier::loop_isolation(false)]
fn check_header_name(s: &str) -> (r: bool)
    ensures
        r == header_name_ok(s@),
{
    let len = s.unicode_len();
    if len == 0 {
        return false;
    }
    let mut i: usize = 0;
    while i < len
        invariant
            i <= len,
            i > 0 ==> header_name_ok(s@.subrange(0, i as int)),
        decreases len - i,
    {
        let c = s.get_char(i);
        let u = c as u32;
        if !(33 <= u && u <= 126) || c == ':' {
            proof {
                lemma_name_not_ok(s@, i as int);
            }
            return false;
        }
        proof {
            assert(s@.subrange(0, i + 1 as int).drop_last() =~= s@.subrange(0, i as int));
        }
        i = i + 1;
    }
    proof {
        assert(s@.subrange(0, len as int) =~= s@);
    }
    true
}

/// A string with a bad character at position `i` is not a well-formed
/// header name.
proof fn lemma_name_not_ok(s: Seq<char>, i: int)
    requires
        0 <= i < s.len(),
        !name_char_ok(s[i]),
    ensures
        !header_name_ok(s),
    decreases s.len(),
{
    if s.len() > 0 && i < s.len() - 1 {
        assert(s.drop_last()[i] == s[i]);
        lemma_name_not_ok(s.drop_last(), i);
    }
}

/// The header sequence with every pair whose key is `k` removed,
/// positions of the others kept.
pub open spec fn remove_key(hs: Seq<(Seq<char>, Seq<char>)>, k: Seq<char>) -> Seq<
    (Seq<char>, Seq<char>),
>
    decreases hs.len(),
{
    if hs.len() == 0 {
        Seq::empty()
    } else if hs.last().0 == k {
        remove_key(hs.drop_last(), k)
    } else {
        remove_key(hs.drop_last(), k).push(hs.last())
    }
}

/// Mathematical view of a response.
#[verifier::ext_equal]
pub struct ResponseView {
    pub status: u16,
    pub content_type: Option<Seq<char>>,
    pub headers: Seq<(Seq<char>, Seq<char>)>,
    pub body: BodyView,
}

/// The default response before any handler mutation: status 200, no
/// content type, no headers, empty body.
pub open spec fn default_response() -> ResponseView {
    ResponseView {
        status: 200,
        content_type: None,
        headers: Seq::empty(),
        body: BodyView::Empty,
    }
}

/// Accumulates the single outgoing response of an invocation.
#[derive(Debug)]
pub struct Response {
    status: u16,
    content_type: Option<String>,
    headers: Vec<(String, String)>,
    body: Body,
}

impl View for Response {
    type V = ResponseView;

    closed spec fn view(&self) -> ResponseView {
        ResponseView {
            status: self.status,
            content_type: match self.content_type {
                Some(ct) => Some(ct@),
                None => None,
            },
            headers: self.headers@.map_values(|p: (String, String)| (p.0@, p.1@)),
            body: self.body@,
        }
    }
}

impl Response {
    /// The default response.
    pub fn new() -> (r: Response)
        ensures
            r@ == default_response(),
    {
        let r = Response {
            status: 200,
            content_type: None,
            headers: Vec::new(),
            body: Body::Empty,
        };
        proof {
            assert(r@ =~~= default_response());
        }
        r
    }

    /// Overrides the status code; everything else is kept.
    pub fn status(&mut self, code: u16)
        ensures
            final(self)@ == (ResponseView { status: code, ..old(self)@ }),
    {
        self.status = code;
    }

    /// Sets the content type, overriding any earlier value (last write
    /// wins). A malformed value is rejected and nothing changes.
    pub fn content_type(&mut self, ct: &str) -> (r: Result<(), HeaderError>)
        ensures
            r is Ok <==> header_value_ok(ct@),
            r is Ok ==> final(self)@ == (ResponseView {
                content_type: Some(ct@),
                ..old(self)@
            }),
            r is Err ==> final(self)@ == old(self)@ && r->Err_0 == HeaderError::InvalidValue,
    {
        if check_header_value(ct) {
            self.content_type = Some(ct.to_owned());
            Ok(())
        } else {
            Err(HeaderError::InvalidValue)
        }
    }

    /// Sets a header. Keys stay unique: an earlier pair with the same
    /// name is removed, so the last write wins. A malformed name or value
    /// is rejected and nothing changes.
    #[verifier::loop_isolation(false)]
    pub fn header(&mut self, name: &str, value: &str) -> (r: Result<(), HeaderError>)
        ensures
            r is Ok <==> header_name_ok(name@) && header_value_ok(value@),
            r is Ok ==> final(self)@ == (ResponseView {
                headers: remove_key(old(self)@.headers, name@).push((name@, value@)),
                ..old(self)@
            }),
            r is Err ==> final(self)@ == old(self)@,
            r is Err ==> (r->Err_0 == HeaderError::InvalidName <==> !header_name_ok(name@)),
    {
        if !check_header_name(name) {
            return Err(HeaderError::InvalidName);
        }
        if !check_header_value(value) {
            return Err(HeaderError::InvalidValue);
        }
        let ghost hv = self@.headers;
        let n = self.headers.len();
        let mut kept: Vec<(String, String)> = Vec::new();
        let mut i: usize = 0;
        while i < n
            invariant
                n == self.headers@.len(),
                i <= n,
                kept@.map_values(|p: (String, String)| (p.0@, p.1@)) == remove_key(
                    hv.subrange(0, i as int),
                    name@,
                ),
            decreases n - i,
        {
            proof {
                assert(hv.subrange(0, (i + 1) as int).drop_last() =~= hv.subrange(0, i as int));
                assert(hv.subrange(0, (i + 1) as int).last() == hv[i as int]);
            }
            if !str_eq(self.headers[i].0.as_str(), name) {
                let k = self.headers[i].0.clone();
                let v = self.headers[i].1.clone();
                kept.push((k, v));
            }
            proof {
                assert(kept@.map_values(|p: (String, String)| (p.0@, p.1@)) =~= remove_key(
                    hv.subrange(0, (i + 1) as int),
                    name@,
                ));
            }
            i = i + 1;
        }
        kept.push((name.to_owned(), value.to_owned()));
        self.headers = kept;
        proof {
            assert(hv.subrange(0, n as int) =~= hv);
            assert(final(self)@ =~~= (ResponseView {
                headers: remove_key(old(self)@.headers, name@).push((name@, value@)),
                ..old(self)@
            }));
        }
        Ok(())
    }

    /// Sets a text body, replacing whatever body was set before.
    pub fn text(&mut self, s: &str)
        ensures
            final(self)@ == (ResponseView { body: BodyView::Text(s@), ..old(self)@ }),
    {
        self.body = Body::Text(s.to_owned());
    }

    /// Serializes a JSON value as the body, replacing whatever body was
    /// set before. Every value of the JSON model serializes, so this
    /// always succeeds; the `Result` is the seam where a value outside
    /// the model would report a `SerializationError`.
    pub fn json(&mut self, v: &Json) -> (r: Result<(), SerializationError>)
        ensures
            r is Ok,
            final(self)@ == (ResponseView {
                body: BodyView::Json(encode_spec(*v)),
                ..old(self)@
            }),
    {
        let s = encode(v);
        self.body = Body::Json(s);
        Ok(())
    }

    /// Sets a raw byte body, replacing whatever body was set before.
    pub fn body(&mut self, bytes: Vec<u8>)
        ensures
            final(self)@ == (ResponseView { body: BodyView::Bytes(bytes@), ..old(self)@ }),
    {
        self.body = Body::Bytes(bytes);
    }

    /// The status code.
    pub fn get_status(&self) -> (s: u16)
        ensures
            s == self@.status,
    {
        self.status
    }

    /// The content type, if one was set.
    pub fn get_content_type(&self) -> (ct: Option<String>)
        ensures
            match ct {
                Some(s) => self@.content_type == Some(s@),
                None => self@.content_type is None,
            },
    {
        match &self.content_type {
            Some(s) => Some(s.clone()),
            None => None,
        }
    }

    /// The number of headers.
    pub fn header_count(&self) -> (n: usize)
        ensures
            n == self@.headers.len(),
    {
        self.headers.len()
    }

    /// The header pair at position `i`.
    pub fn get_header_at(&self, i: usize) -> (p: (String, String))
        requires
            i < self@.headers.len(),
        ensures
            (p.0@, p.1@) == self@.headers[i as int],
    {
        let k = self.headers[i].0.clone();
        let v = self.headers[i].1.clone();
        (k, v)
    }

    /// The bytes of the body as they go out on the wire: UTF-8 for text
    /// and JSON bodies, the bytes themselves for a raw body.
    #[verifier::loop_isolation(false)]
    pub fn body_bytes(&self) -> (r: Vec<u8>)
        ensures
            r@ == body_bytes_spec(self@.body),
    {
        match &self.body {
            Body::Empty => Vec::new(),
            Body::Text(s) => s.as_str().as_bytes_vec(),
            Body::Json(s) => s.as_str().as_bytes_vec(),
            Body::Bytes(b) => {
                let n = b.len();
                let mut out: Vec<u8> = Vec::new();
                let mut i: usize = 0;
                while i < n
                    invariant
                        n == b@.len(),
                        i <= n,
                        out@ == b@.subrange(0, i as int),
                    decreases n - i,
                {
                    out.push(b[i]);
                    proof {
                        assert(out@ =~= b@.subrange(0, (i + 1) as int));
                    }
                    i = i + 1;
                }
                proof {
                    assert(b@.subrange(0, n as int) =~= b@);
                }
                out
            },
        }
    }
}

/// Setting the content type and then overwriting it with a second call
/// leaves the second value as the one observed on the final response:
/// the write replaces, it does not accumulate.
pub proof fn lemma_content_type_last_write_wins(r0: ResponseView, ct1: Seq<char>, ct2: Seq<char>)
    requires
        header_value_ok(ct1),
        header_value_ok(ct2),
    ensures
        ({
            let r1 = ResponseView { content_type: Some(ct1), ..r0 };
            let r2 = ResponseView { content_type: Some(ct2), ..r1 };
            r2.content_type == Some(ct2) && r2 == (ResponseView { content_type: Some(ct2), ..r0 })
        }),
{
}

} // verus!
