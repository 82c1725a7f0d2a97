//! The multipart/form-data encoder used to upload files and to ask for
//! downloads.
//!
//! Parts are written in the order given, text fields first and then
//! streams, each opened by the boundary line; a body with at least one part
//! ends with the closing boundary. A stream read from a file and the same
//! bytes held in memory encode alike, since both arrive here as bytes.
use vstd::prelude::*;
use crate::text::{push_bytes, push_char, push_str};
use crate::transport::{
    auth_headers, headers_view, multipart_type, pairs_view, plan_multipart, uri_text, Method,
    ReplyKind, RequestPlan,
};
use vstd::utf8::encode_utf8;
use rand::Rng;

verus! {

/// A binary part of a multipart body.
#[derive(Debug)]
pub struct StreamPart {
    /// The form field the part is sent under.
    pub name: String,
    /// The content.
    pub data: Vec<u8>,
    /// The file name announced for the content, if any.
    pub filename: Option<String>,
    /// The media type of the content; `application/octet-stream` if `None`.
    pub content_type: Option<String>,
}

/// A line break on the wire.
pub open spec fn crlf() -> Seq<char> {
    seq!['\r', '\n']
}

/// The boundary line and disposition that open every part.
pub open spec fn part_opening(boundary: Seq<char>, name: Seq<char>) -> Seq<char> {
    crlf() + seq!['-', '-'] + boundary + crlf() + "Content-Disposition: form-data; name=\""@ + name
        + seq!['"']
}

/// A whole text part.
pub open spec fn text_part(boundary: Seq<char>, field: (Seq<char>, Seq<char>)) -> Seq<char> {
    part_opening(boundary, field.0) + crlf() + crlf() + field.1
}

/// The media type a stream part announces.
pub open spec fn media_type(p: StreamPart) -> Seq<char> {
    match p.content_type {
        Some(t) => t@,
        None => "application/octet-stream"@,
    }
}

/// The header of a stream part, up to the first byte of its content.
pub open spec fn stream_header(boundary: Seq<char>, p: StreamPart) -> Seq<char> {
    part_opening(boundary, p.name@) + match p.filename {
        Some(f) => "; filename=\""@ + f@ + seq!['"'],
        None => Seq::empty(),
    } + crlf() + "Content-Type: "@ + media_type(p) + crlf() + crlf()
}

/// The bytes of the text parts, in order.
pub open spec fn text_bytes(boundary: Seq<char>, fields: Seq<(Seq<char>, Seq<char>)>) -> Seq<u8>
    decreases fields.len(),
{
    if fields.len() == 0 {
        Seq::empty()
    } else {
        text_bytes(boundary, fields.drop_last()) + encode_utf8(text_part(boundary, fields.last()))
    }
}

/// The bytes of the stream parts, in order.
pub open spec fn stream_bytes(boundary: Seq<char>, streams: Seq<StreamPart>) -> Seq<u8>
    decreases streams.len(),
{
    if streams.len() == 0 {
        Seq::empty()
    } else {
        stream_bytes(boundary, streams.drop_last()) + encode_utf8(
            stream_header(boundary, streams.last()),
        ) + streams.last().data@
    }
}

/// The closing boundary, written only after at least one part.
pub open spec fn closing(boundary: Seq<char>, parts: nat) -> Seq<u8> {
    if parts == 0 {
        Seq::empty()
    } else {
        encode_utf8(crlf() + seq!['-', '-'] + boundary + seq!['-', '-'])
    }
}

/// The multipart body of the text fields and streams, with `boundary`.
pub open spec fn multipart_body(
    boundary: Seq<char>,
    fields: Seq<(Seq<char>, Seq<char>)>,
    streams: Seq<StreamPart>,
) -> Seq<u8> {
    text_bytes(boundary, fields) + stream_bytes(boundary, streams) + closing(
        boundary,
        fields.len() + streams.len(),
    )
}

/// Whether `b` can separate parts: 1 to 70 ASCII letters and digits.
pub open spec fn valid_boundary(b: Seq<char>) -> bool {
    1 <= b.len() <= 70 && forall|i: int| 0 <= i < b.len() ==> is_alphanumeric(#[trigger] b[i])
}

/// Whether `c` is an ASCII letter or digit.
pub open spec fn is_alphanumeric(c: char) -> bool {
    ('0' <= c && c <= '9') || ('a' <= c && c <= 'z') || ('A' <= c && c <= 'Z')
}

/// How many characters a fresh boundary has.
pub const BOUNDARY_LEN: usize = 16;

/// Relies on `rand::thread_rng` sampled with `rand::distributions::Alphanumeric`:
/// one character drawn uniformly from the ASCII letters and digits.
#[verifier::external_body]
fn random_alphanumeric() -> (c: char)
    ensures
        is_alphanumeric(c),
{
    char::from(rand::thread_rng().sample(rand::distributions::Alphanumeric))
}

/// A fresh random boundary of `BOUNDARY_LEN` letters and digits.
fn fresh_boundary() -> (r: String)
    ensures
        valid_boundary(r@),
        r@.len() == BOUNDARY_LEN,
{
    let mut b = String::new();
    let mut i: usize = 0;
    while i < BOUNDARY_LEN
        invariant
            i <= BOUNDARY_LEN,
            b@.len() == i,
            forall|j: int| 0 <= j < i ==> is_alphanumeric(#[trigger] b@[j]),
        decreases BOUNDARY_LEN - i,
    {
        push_char(&mut b, random_alphanumeric());
        i = i + 1;
    }
    b
}

fn push_text(out: &mut Vec<u8>, s: &String)
    ensures
        final(out)@ == old(out)@ + encode_utf8(s@),
{
    push_bytes(out, s.as_str().as_bytes());
}

fn opening(boundary: &str, name: &str) -> (r: String)
    ensures
        r@ == part_opening(boundary@, name@),
{
    let mut h = String::new();
    push_char(&mut h, '\r');
    push_char(&mut h, '\n');
    push_char(&mut h, '-');
    push_char(&mut h, '-');
    push_str(&mut h, boundary);
    push_char(&mut h, '\r');
    push_char(&mut h, '\n');
    push_str(&mut h, "Content-Disposition: form-data; name=\"");
    push_str(&mut h, name);
    push_char(&mut h, '"');
    assert(h@ =~= part_opening(boundary@, name@));
    h
}

fn header_of(boundary: &str, p: &StreamPart) -> (r: String)
    ensures
        r@ == stream_header(boundary@, *p),
{
    let mut h = opening(boundary, p.name.as_str());
    let ghost o = h@;
    match &p.filename {
        Some(f) => {
            push_str(&mut h, "; filename=\"");
            push_str(&mut h, f.as_str());
            push_char(&mut h, '"');
        },
        None => {},
    }
    let ghost with_name = h@;
    push_char(&mut h, '\r');
    push_char(&mut h, '\n');
    push_str(&mut h, "Content-Type: ");
    match &p.content_type {
        Some(t) => push_str(&mut h, t.as_str()),
        None => push_str(&mut h, "application/octet-stream"),
    }
    push_char(&mut h, '\r');
    push_char(&mut h, '\n');
    push_char(&mut h, '\r');
    push_char(&mut h, '\n');
    assert(h@ =~= stream_header(boundary@, *p));
    h
}

/// Encodes text fields and streams, in the order given, as a multipart
/// body separated by `boundary`.
pub fn encode_multipart(boundary: &str, fields: &Vec<(String, String)>, streams: &Vec<StreamPart>) -> (r:
    Vec<u8>)
    ensures
        r@ == multipart_body(boundary@, pairs_view(fields@), streams@),
{
    let ghost fv = pairs_view(fields@);
    let mut out: Vec<u8> = Vec::new();
    let mut i: usize = 0;
    while i < fields.len()
        invariant
            i <= fields@.len(),
            fv == pairs_view(fields@),
            out@ == text_bytes(boundary@, fv.subrange(0, i as int)),
        decreases fields@.len() - i,
    {
        let mut part = opening(boundary, fields[i].0.as_str());
        push_char(&mut part, '\r');
        push_char(&mut part, '\n');
        push_char(&mut part, '\r');
        push_char(&mut part, '\n');
        push_str(&mut part, fields[i].1.as_str());
        assert(part@ =~= text_part(boundary@, fv[i as int]));
        push_text(&mut out, &part);
        assert(fv.subrange(0, i + 1).drop_last() =~= fv.subrange(0, i as int));
        i = i + 1;
    }
    assert(fv.subrange(0, fv.len() as int) =~= fv);
    let ghost texts = out@;
    let mut j: usize = 0;
    while j < streams.len()
        invariant
            j <= streams@.len(),
            out@ == texts + stream_bytes(boundary@, streams@.subrange(0, j as int)),
        decreases streams@.len() - j,
    {
        let h = header_of(boundary, &streams[j]);
        push_text(&mut out, &h);
        push_bytes(&mut out, streams[j].data.as_slice());
        assert(streams@.subrange(0, j + 1).drop_last() =~= streams@.subrange(0, j as int));
        assert(out@ =~= texts + stream_bytes(boundary@, streams@.subrange(0, j + 1)));
        j = j + 1;
    }
    assert(streams@.subrange(0, streams@.len() as int) =~= streams@);
    if fields.len() > 0 || streams.len() > 0 {
        let mut end = String::new();
        push_char(&mut end, '\r');
        push_char(&mut end, '\n');
        push_char(&mut end, '-');
        push_char(&mut end, '-');
        push_str(&mut end, boundary);
        push_char(&mut end, '-');
        push_char(&mut end, '-');
        assert(end@ =~= crlf() + seq!['-', '-'] + boundary@ + seq!['-', '-']);
        push_text(&mut out, &end);
    }
    assert(out@ =~= multipart_body(boundary@, fv, streams@));
    out
}

/// Encodes text fields and streams, in the order given, under a fresh
/// random boundary; returns the boundary and the body.
pub fn build_multipart(fields: &Vec<(String, String)>, streams: &Vec<StreamPart>) -> (r: (String, Vec<u8>))
    ensures
        valid_boundary(r.0@),
        r.1@ == multipart_body(r.0@, pairs_view(fields@), streams@),
{
    let boundary = fresh_boundary();
    let body = encode_multipart(boundary.as_str(), fields, streams);
    (boundary, body)
}

/// A multipart `POST` of the fields and streams to `path` with the session
/// token, under a fresh boundary; `extra` headers follow, and `reply` says
/// how the answer's body is read. Returns the boundary and the request.
pub fn multipart_request(
    base: &str,
    path: &str,
    token: &str,
    fields: &Vec<(String, String)>,
    streams: &Vec<StreamPart>,
    extra: Vec<(String, String)>,
    reply: ReplyKind,
) -> (r: (String, RequestPlan))
    ensures
        valid_boundary(r.0@),
        r.1.method == Method::Post,
        r.1.uri@ == uri_text(base@, path@, Seq::empty()),
        headers_view(r.1.headers@) == seq![("Content-Type"@, multipart_type(r.0@))] + auth_headers(
            Some(token@),
        ) + headers_view(extra@),
        r.1.body@ == multipart_body(r.0@, pairs_view(fields@), streams@),
        r.1.reply == reply,
{
    let (boundary, body) = build_multipart(fields, streams);
    let plan = plan_multipart(base, path, boundary.as_str(), body, token, extra, reply);
    (boundary, plan)
}

/// The encoding depends on the boundary, fields and streams alone: two
/// encodings of the same parts with the same boundary are the same bytes.
pub proof fn lemma_encoding_is_deterministic(
    b1: Seq<char>,
    f1: Seq<(Seq<char>, Seq<char>)>,
    s1: Seq<StreamPart>,
    b2: Seq<char>,
    f2: Seq<(Seq<char>, Seq<char>)>,
    s2: Seq<StreamPart>,
)
    requires
        b1 == b2,
        f1 == f2,
        s1 == s2,
    ensures
        multipart_body(b1, f1, s1) == multipart_body(b2, f2, s2),
{
}

/// Parts keep their order: adding a text field appends its part after the
/// parts of the earlier fields.
pub proof fn lemma_fields_keep_order(
    b: Seq<char>,
    fields: Seq<(Seq<char>, Seq<char>)>,
    f: (Seq<char>, Seq<char>),
)
    ensures
        text_bytes(b, fields.push(f)) == text_bytes(b, fields) + encode_utf8(text_part(b, f)),
{
    assert(fields.push(f).drop_last() =~= fields);
}

} // verus!
