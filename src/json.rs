//! JSON request bodies.
//!
//! A body is a flat object whose members are written in the order given.
//! String escaping is serde_json's; the framing is written here.
use vstd::prelude::*;
use vstd::utf8::encode_utf8;
use crate::text::{decimal, digit_char, push_bytes, push_char, push_decimal, push_str};

verus! {

/// A member value of a request body.
#[derive(Debug)]
pub enum JsonValue {
    Str(String),
    Bool(bool),
    Number(u32),
    Null,
}

/// The lower-case hexadecimal digit of `n`, for `0 <= n < 16`.
pub open spec fn hex_digit(n: int) -> char {
    if n < 10 {
        digit_char(n as nat)
    } else if n == 10 {
        'a'
    } else if n == 11 {
        'b'
    } else if n == 12 {
        'c'
    } else if n == 13 {
        'd'
    } else if n == 14 {
        'e'
    } else {
        'f'
    }
}

/// How one character is written inside a JSON string literal: a quote and
/// a backslash get a backslash, the control characters with a short escape
/// get it, the other control characters below U+0020 become `\u00XX` in
/// lower-case hexadecimal, and every other character stands for itself.
pub open spec fn escaped_char(c: char) -> Seq<char> {
    if c == '"' {
        seq!['\\', '"']
    } else if c == '\\' {
        seq!['\\', '\\']
    } else if c == '\u{8}' {
        seq!['\\', 'b']
    } else if c == '\t' {
        seq!['\\', 't']
    } else if c == '\n' {
        seq!['\\', 'n']
    } else if c == '\u{c}' {
        seq!['\\', 'f']
    } else if c == '\r' {
        seq!['\\', 'r']
    } else if (c as int) < 0x20 {
        seq!['\\', 'u', '0', '0', hex_digit((c as int) / 16), hex_digit((c as int) % 16)]
    } else {
        seq![c]
    }
}

/// The characters of a text, each escaped.
pub open spec fn json_escaped(s: Seq<char>) -> Seq<char>
    decreases s.len(),
{
    if s.len() == 0 {
        Seq::empty()
    } else {
        json_escaped(s.drop_last()) + escaped_char(s.last())
    }
}

/// The JSON string literal of a text: the escaped text in double quotes.
pub open spec fn json_string_literal(s: Seq<char>) -> Seq<char> {
    seq!['"'] + json_escaped(s) + seq!['"']
}

/// Relies on `serde_json::to_string` of a `str`: the text in double quotes,
/// each byte escaped by the crate's escape table (`ser.rs`, `ESCAPE` and
/// `write_char_escape`). Serializing a `str` into memory cannot fail.
#[verifier::external_body]
fn json_quote(s: &str) -> (r: String)
    ensures
        r@ == json_string_literal(s@),
{
    serde_json::to_string(s).unwrap()
}

/// Appends the JSON string literal of `s`.
pub(crate) fn push_json_str(out: &mut String, s: &str)
    ensures
        final(out)@ == old(out)@ + json_string_literal(s@),
{
    let q = json_quote(s);
    push_str(out, q.as_str());
}

/// `"key":value`, for a value already in JSON.
pub open spec fn json_member(key: Seq<char>, value: Seq<char>) -> Seq<char> {
    json_string_literal(key) + seq![':'] + value
}

/// An optional string as JSON: its literal, or `null`.
pub open spec fn opt_str_json(o: Option<Seq<char>>) -> Seq<char> {
    match o {
        Some(s) => json_string_literal(s),
        None => "null"@,
    }
}

/// An optional number as JSON: its decimal, or `null`.
pub open spec fn opt_num_json(o: Option<u32>) -> Seq<char> {
    match o {
        Some(n) => decimal(n as nat),
        None => "null"@,
    }
}

/// Appends `"key":` and then the literal of `value`.
pub(crate) fn push_str_member(out: &mut String, key: &str, value: &str)
    ensures
        final(out)@ == old(out)@ + json_member(key@, json_string_literal(value@)),
{
    push_json_str(out, key);
    push_char(out, ':');
    push_json_str(out, value);
    assert(final(out)@ =~= old(out)@ + json_member(key@, json_string_literal(value@)));
}

/// Appends `"key":` and then the optional string, `null` if absent.
pub(crate) fn push_opt_str_member(out: &mut String, key: &str, value: Option<&str>)
    ensures
        final(out)@ == old(out)@ + json_member(
            key@,
            opt_str_json(
                match value {
                    Some(v) => Some(v@),
                    None => None,
                },
            ),
        ),
{
    push_json_str(out, key);
    push_char(out, ':');
    match value {
        Some(v) => push_json_str(out, v),
        None => push_str(out, "null"),
    }
    assert(final(out)@ =~= old(out)@ + json_member(
        key@,
        opt_str_json(
            match value {
                Some(v) => Some(v@),
                None => None,
            },
        ),
    ));
}

/// Appends `"key":` and then the optional number, `null` if absent.
pub(crate) fn push_opt_num_member(out: &mut String, key: &str, value: Option<u32>)
    ensures
        final(out)@ == old(out)@ + json_member(key@, opt_num_json(value)),
{
    push_json_str(out, key);
    push_char(out, ':');
    match value {
        Some(n) => push_decimal(out, n as u64),
        None => push_str(out, "null"),
    }
    assert(final(out)@ =~= old(out)@ + json_member(key@, opt_num_json(value)));
}

/// The JSON text of a member value.
pub open spec fn json_value_text(v: JsonValue) -> Seq<char> {
    match v {
        JsonValue::Str(s) => json_string_literal(s@),
        JsonValue::Bool(b) => if b {
            "true"@
        } else {
            "false"@
        },
        JsonValue::Number(n) => decimal(n as nat),
        JsonValue::Null => "null"@,
    }
}

/// `"name":value`.
pub open spec fn member_text(m: (String, JsonValue)) -> Seq<char> {
    json_string_literal(m.0@) + seq![':'] + json_value_text(m.1)
}

/// The members, joined by `,`.
pub open spec fn members_text(ms: Seq<(String, JsonValue)>) -> Seq<char>
    decreases ms.len(),
{
    if ms.len() == 0 {
        Seq::empty()
    } else if ms.len() == 1 {
        member_text(ms[0])
    } else {
        members_text(ms.drop_last()) + seq![','] + member_text(ms.last())
    }
}

/// The JSON object of the members.
pub open spec fn object_text(ms: Seq<(String, JsonValue)>) -> Seq<char> {
    seq!['{'] + members_text(ms) + seq!['}']
}

fn push_value(out: &mut String, v: &JsonValue)
    ensures
        final(out)@ == old(out)@ + json_value_text(*v),
{
    match v {
        JsonValue::Str(s) => {
            let q = json_quote(s.as_str());
            push_str(out, q.as_str());
        },
        JsonValue::Bool(b) => {
            if *b {
                push_str(out, "true");
            } else {
                push_str(out, "false");
            }
        },
        JsonValue::Number(n) => push_decimal(out, *n as u64),
        JsonValue::Null => push_str(out, "null"),
    }
}

/// The UTF-8 bytes of a JSON object with the members, in the order given.
pub fn json_object(members: &Vec<(String, JsonValue)>) -> (r: Vec<u8>)
    ensures
        r@ == encode_utf8(object_text(members@)),
{
    let mut out = String::new();
    push_char(&mut out, '{');
    let mut i: usize = 0;
    while i < members.len()
        invariant
            i <= members@.len(),
            out@ == seq!['{'] + members_text(members@.subrange(0, i as int)),
        decreases members@.len() - i,
    {
        if i > 0 {
            push_char(&mut out, ',');
        }
        let q = json_quote(members[i].0.as_str());
        push_str(&mut out, q.as_str());
        push_char(&mut out, ':');
        push_value(&mut out, &members[i].1);
        proof {
            let ms = members@.subrange(0, i + 1);
            assert(ms.drop_last() =~= members@.subrange(0, i as int));
            assert(ms.last() == members@[i as int]);
            if i == 0 {
                assert(members_text(members@.subrange(0, 0)) == Seq::<char>::empty());
            }
        }
        assert(out@ =~= seq!['{'] + members_text(members@.subrange(0, i + 1)));
        i = i + 1;
    }
    push_char(&mut out, '}');
    assert(members@.subrange(0, members@.len() as int) =~= members@);
    assert(out@ =~= object_text(members@));
    let mut r: Vec<u8> = Vec::new();
    push_bytes(&mut r, out.as_str().as_bytes());
    r
}

} // verus!
