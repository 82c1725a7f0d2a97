//! The transport core: what each request to the service carries, and how a
//! reply is classified.
//!
//! Query strings are joined as they come: the callers pre-encode their
//! values in the service's own convention, so nothing is percent-encoded
//! here.
use vstd::prelude::*;
use crate::error::RequestError;
use crate::text::{chars_of, push_char, push_str, str_eq};

verus! {

/// The service address a client uses unless told otherwise.
pub const DEFAULT_URL: &'static str = "http://localhost:9090/v1";

/// The name of the session cookie.
pub open spec fn cookie_name() -> Seq<char> {
    "fairOS-dfs"@
}

/// An HTTP method the service is called with.
#[derive(Debug, Clone, Copy, PartialEq, Eq, Structural)]
pub enum Method {
    Get,
    Post,
    Delete,
}

/// What the body of a successful reply holds.
#[derive(Debug, Clone, Copy, PartialEq, Eq, Structural)]
pub enum ReplyKind {
    /// A JSON document of the endpoint's own shape.
    Json,
    /// Raw bytes, handed to the caller as they are.
    Binary,
}

/// The envelope of every reply with a status outside 200..300.
#[derive(Debug)]
pub struct MessageResponse {
    pub message: String,
    pub code: u32,
}

/// A request, ready to be sent.
#[derive(Debug)]
pub struct RequestPlan {
    pub method: Method,
    pub uri: String,
    /// Header names and values, in the order they are sent.
    pub headers: Vec<(String, String)>,
    pub body: Vec<u8>,
    pub reply: ReplyKind,
}

/// A reply with a status in 200..300.
#[derive(Debug)]
pub struct Success {
    pub body: Vec<u8>,
    /// The refreshed session token, if the reply carried one.
    pub session: Option<String>,
}

/// `key=value`.
pub open spec fn pair_text(p: (String, String)) -> Seq<char> {
    p.0@ + seq!['='] + p.1@
}

/// The pairs, each as `key=value`, joined by `&`.
pub open spec fn joined(q: Seq<(String, String)>) -> Seq<char>
    decreases q.len(),
{
    if q.len() == 0 {
        Seq::empty()
    } else if q.len() == 1 {
        pair_text(q[0])
    } else {
        joined(q.drop_last()) + seq!['&'] + pair_text(q.last())
    }
}

/// The query part of a URI: empty without pairs, else `?` and the pairs.
pub open spec fn query_text(q: Seq<(String, String)>) -> Seq<char> {
    if q.len() == 0 {
        Seq::empty()
    } else {
        seq!['?'] + joined(q)
    }
}

/// The full URI of a call.
pub open spec fn uri_text(base: Seq<char>, path: Seq<char>, q: Seq<(String, String)>) -> Seq<char> {
    base + path + query_text(q)
}

/// The characters of each header name and value.
pub open spec fn headers_view(h: Seq<(String, String)>) -> Seq<(Seq<char>, Seq<char>)> {
    h.map_values(|p: (String, String)| (p.0@, p.1@))
}

/// The characters of each pair of strings.
pub open spec fn pairs_view(q: Seq<(String, String)>) -> Seq<(Seq<char>, Seq<char>)> {
    q.map_values(|p: (String, String)| (p.0@, p.1@))
}

/// The value of the `Cookie` header that carries `token`.
pub open spec fn cookie_value(token: Seq<char>) -> Seq<char> {
    cookie_name() + seq!['='] + token
}

/// The session header of a call: one `Cookie` header with a token, none
/// without.
pub open spec fn auth_headers(token: Option<Seq<char>>) -> Seq<(Seq<char>, Seq<char>)> {
    match token {
        Some(t) => seq![("Cookie"@, cookie_value(t))],
        None => Seq::empty(),
    }
}

/// The `Content-Type` header of a JSON body.
pub open spec fn json_header() -> (Seq<char>, Seq<char>) {
    ("Content-Type"@, "application/json"@)
}

/// The characters of an optional string.
pub open spec fn opt_view(o: Option<&str>) -> Option<Seq<char>> {
    match o {
        Some(s) => Some(s@),
        None => None,
    }
}

/// The characters of an optional owned string.
pub open spec fn opt_string_view(o: Option<String>) -> Option<Seq<char>> {
    match o {
        Some(s) => Some(s@),
        None => None,
    }
}

/// The URI of a call: the base address, the path, then the query pairs in
/// the order given, joined as they are.
pub fn make_uri(base: &str, path: &str, query: &Vec<(String, String)>) -> (r: String)
    ensures
        r@ == uri_text(base@, path@, query@),
{
    let mut out = String::from_str(base);
    push_str(&mut out, path);
    let ghost prefix = base@ + path@;
    let mut i: usize = 0;
    while i < query.len()
        invariant
            i <= query@.len(),
            out@ == prefix + (if i == 0 {
                Seq::<char>::empty()
            } else {
                seq!['?'] + joined(query@.subrange(0, i as int))
            }),
        decreases query@.len() - i,
    {
        if i == 0 {
            push_char(&mut out, '?');
        } else {
            push_char(&mut out, '&');
        }
        push_str(&mut out, query[i].0.as_str());
        push_char(&mut out, '=');
        push_str(&mut out, query[i].1.as_str());
        proof {
            let q = query@.subrange(0, i + 1);
            assert(q.drop_last() =~= query@.subrange(0, i as int));
            assert(q.last() == query@[i as int]);
            if i == 0 {
                assert(joined(q) == pair_text(query@[0]));
            }
        }
        assert(out@ =~= prefix + seq!['?'] + joined(query@.subrange(0, i + 1)));
        i = i + 1;
    }
    assert(query@.subrange(0, query@.len() as int) =~= query@);
    assert(out@ =~= uri_text(base@, path@, query@));
    out
}

fn cookie_header(token: &str) -> (r: (String, String))
    ensures
        r.0@ == "Cookie"@,
        r.1@ == cookie_value(token@),
{
    let mut v = String::from_str("fairOS-dfs");
    push_char(&mut v, '=');
    push_str(&mut v, token);
    (String::from_str("Cookie"), v)
}

fn json_content_type() -> (r: (String, String))
    ensures
        (r.0@, r.1@) == json_header(),
{
    (String::from_str("Content-Type"), String::from_str("application/json"))
}

fn push_auth(headers: &mut Vec<(String, String)>, token: Option<&str>)
    ensures
        headers_view(final(headers)@) == headers_view(old(headers)@) + auth_headers(opt_view(token)),
{
    match token {
        Some(t) => {
            headers.push(cookie_header(t));
        },
        None => {},
    }
    assert(headers_view(final(headers)@) =~= headers_view(old(headers)@) + auth_headers(opt_view(token)));
}

/// A `GET` of `path` with the query pairs in order, carrying the session
/// token if one is given.
pub fn plan_get(base: &str, path: &str, query: &Vec<(String, String)>, token: Option<&str>) -> (r:
    RequestPlan)
    ensures
        r.method == Method::Get,
        r.uri@ == uri_text(base@, path@, query@),
        headers_view(r.headers@) == auth_headers(opt_view(token)),
        r.body@ == Seq::<u8>::empty(),
        r.reply == ReplyKind::Json,
{
    let mut headers: Vec<(String, String)> = Vec::new();
    push_auth(&mut headers, token);
    assert(headers_view(Seq::<(String, String)>::empty()) =~= Seq::empty());
    assert(auth_headers(opt_view(token)) =~= Seq::empty() + auth_headers(opt_view(token)));
    RequestPlan {
        method: Method::Get,
        uri: make_uri(base, path, query),
        headers,
        body: Vec::new(),
        reply: ReplyKind::Json,
    }
}

/// A `POST` of a JSON body to `path`, carrying the session token if one is
/// given.
pub fn plan_post(base: &str, path: &str, body: Vec<u8>, token: Option<&str>) -> (r: RequestPlan)
    ensures
        r.method == Method::Post,
        r.uri@ == uri_text(base@, path@, Seq::empty()),
        headers_view(r.headers@) == seq![json_header()] + auth_headers(opt_view(token)),
        r.body@ == body@,
        r.reply == ReplyKind::Json,
{
    let mut headers: Vec<(String, String)> = Vec::new();
    headers.push(json_content_type());
    assert(headers_view(headers@) =~= seq![json_header()]);
    push_auth(&mut headers, token);
    let no_query: Vec<(String, String)> = Vec::new();
    RequestPlan {
        method: Method::Post,
        uri: make_uri(base, path, &no_query),
        headers,
        body,
        reply: ReplyKind::Json,
    }
}

/// A `DELETE` of `path` with a JSON body and the session token.
pub fn plan_delete(base: &str, path: &str, body: Vec<u8>, token: &str) -> (r: RequestPlan)
    ensures
        r.method == Method::Delete,
        r.uri@ == uri_text(base@, path@, Seq::empty()),
        headers_view(r.headers@) == seq![json_header()] + auth_headers(Some(token@)),
        r.body@ == body@,
        r.reply == ReplyKind::Json,
{
    let mut headers: Vec<(String, String)> = Vec::new();
    headers.push(json_content_type());
    assert(headers_view(headers@) =~= seq![json_header()]);
    push_auth(&mut headers, Some(token));
    let no_query: Vec<(String, String)> = Vec::new();
    RequestPlan {
        method: Method::Delete,
        uri: make_uri(base, path, &no_query),
        headers,
        body,
        reply: ReplyKind::Json,
    }
}

/// The `Content-Type` value of a multipart body with `boundary`.
pub open spec fn multipart_type(boundary: Seq<char>) -> Seq<char> {
    "multipart/form-data; boundary="@ + boundary
}

/// A `POST` of a multipart body to `path` with the session token; `extra`
/// headers follow, and `reply` says how the body of the answer is read.
pub fn plan_multipart(
    base: &str,
    path: &str,
    boundary: &str,
    body: Vec<u8>,
    token: &str,
    extra: Vec<(String, String)>,
    reply: ReplyKind,
) -> (r: RequestPlan)
    ensures
        r.method == Method::Post,
        r.uri@ == uri_text(base@, path@, Seq::empty()),
        headers_view(r.headers@) == seq![("Content-Type"@, multipart_type(boundary@))]
            + auth_headers(Some(token@)) + headers_view(extra@),
        r.body@ == body@,
        r.reply == reply,
{
    let mut headers: Vec<(String, String)> = Vec::new();
    let mut ct = String::from_str("multipart/form-data; boundary=");
    push_str(&mut ct, boundary);
    headers.push((String::from_str("Content-Type"), ct));
    assert(headers_view(headers@) =~= seq![("Content-Type"@, multipart_type(boundary@))]);
    push_auth(&mut headers, Some(token));
    let ghost before = headers@;
    let ghost extra_seq = extra@;
    let mut extra = extra;
    headers.append(&mut extra);
    assert(headers_view(headers@) =~= headers_view(before) + headers_view(extra_seq));
    let no_query: Vec<(String, String)> = Vec::new();
    RequestPlan { method: Method::Post, uri: make_uri(base, path, &no_query), headers, body, reply }
}

/// The first index at or after `i` and before `end` where `s` holds `c`,
/// or `end` if there is none.
pub open spec fn scan(s: Seq<char>, c: char, i: int, end: int) -> int
    decreases end - i,
{
    if i >= end {
        end
    } else if s[i] == c {
        i
    } else {
        scan(s, c, i + 1, end)
    }
}

/// The session token in a `Set-Cookie` header: the cookie is the text
/// before the first `;`, its name the text before the first `=`, and its
/// value the rest of the cookie after that `=`. Present only when the
/// cookie has an `=` and is named after the session cookie.
pub open spec fn session_in_set_cookie(h: Seq<char>) -> Option<Seq<char>> {
    let seg = scan(h, ';', 0, h.len() as int);
    let eq = scan(h, '=', 0, seg);
    if eq >= seg {
        None
    } else if h.subrange(0, eq) == cookie_name() {
        Some(h.subrange(eq + 1, seg))
    } else {
        None
    }
}

proof fn lemma_scan_bounds(s: Seq<char>, c: char, i: int, end: int)
    requires
        0 <= i,
        end <= s.len(),
    ensures
        i <= end ==> i <= scan(s, c, i, end) <= end,
        i > end ==> scan(s, c, i, end) == end,
    decreases end - i,
{
    if i < end && s[i] != c {
        lemma_scan_bounds(s, c, i + 1, end);
    }
}

fn find_char(s: &Vec<char>, c: char, from: usize, end: usize) -> (r: usize)
    requires
        from <= end <= s@.len(),
    ensures
        r == scan(s@, c, from as int, end as int),
        from <= r <= end,
{
    let mut i = from;
    proof {
        lemma_scan_bounds(s@, c, from as int, end as int);
    }
    while i < end
        invariant
            from <= i <= end,
            end <= s@.len(),
            scan(s@, c, from as int, end as int) == scan(s@, c, i as int, end as int),
        decreases end - i,
    {
        if s[i] == c {
            return i;
        }
        i = i + 1;
    }
    i
}

fn collect(s: &Vec<char>, from: usize, to: usize) -> (r: String)
    requires
        from <= to <= s@.len(),
    ensures
        r@ == s@.subrange(from as int, to as int),
{
    let mut out = String::new();
    let mut i = from;
    while i < to
        invariant
            from <= i <= to,
            to <= s@.len(),
            out@ == s@.subrange(from as int, i as int),
        decreases to - i,
    {
        push_char(&mut out, s[i]);
        i = i + 1;
        assert(out@ =~= s@.subrange(from as int, i as int));
    }
    out
}

/// Reads the session token out of a `Set-Cookie` header.
pub fn session_from_set_cookie(header: &str) -> (r: Option<String>)
    ensures
        opt_string_view(r) == session_in_set_cookie(header@),
{
    let cs = chars_of(header);
    let n = cs.len();
    let seg = find_char(&cs, ';', 0, n);
    let eq = find_char(&cs, '=', 0, seg);
    if eq >= seg {
        return None;
    }
    let name = collect(&cs, 0, eq);
    if str_eq(name.as_str(), "fairOS-dfs") {
        Some(collect(&cs, eq + 1, seg))
    } else {
        None
    }
}

/// Whether a status means success.
pub fn is_status_ok(status: u16) -> (r: bool)
    ensures
        r == (200 <= status && status < 300),
{
    status >= 200 && status < 300
}

/// The session token a reply hands back: only `POST` replies refresh it.
pub open spec fn refreshed_session(method: Method, set_cookie: Option<Seq<char>>) -> Option<Seq<char>> {
    match (method, set_cookie) {
        (Method::Post, Some(h)) => session_in_set_cookie(h),
        _ => None,
    }
}

/// Classifies a reply. A status in 200..300 is a success: the body is kept
/// for the caller to decode and, on `POST`, the session token is read from
/// `Set-Cookie`. Any other status is a rejection that carries the decoded
/// message envelope (`envelope`), or a decode failure where the body held
/// none.
pub fn classify_response(
    method: Method,
    status: u16,
    set_cookie: Option<&str>,
    body: Vec<u8>,
    envelope: Option<MessageResponse>,
) -> (r: Result<Success, RequestError>)
    ensures
        200 <= status < 300 ==> (r matches Ok(s) && s.body@ == body@ && opt_string_view(s.session)
            == refreshed_session(method, opt_view(set_cookie))),
        !(200 <= status < 300) ==> match envelope {
            Some(m) => (r matches Err(RequestError::Rejected { message, code }) && message@
                == m.message@ && code == m.code),
            None => (r matches Err(RequestError::DecodeFailed)),
        },
{
    if is_status_ok(status) {
        let session = match (method, set_cookie) {
            (Method::Post, Some(h)) => session_from_set_cookie(h),
            _ => None,
        };
        Ok(Success { body, session })
    } else {
        match envelope {
            Some(m) => Err(RequestError::Rejected { message: m.message, code: m.code }),
            None => Err(RequestError::DecodeFailed),
        }
    }
}

} // verus!
