//! The document filter language and its compiler to the service's query
//! syntax.
//!
//! The service takes filters pre-encoded: string literals are wrapped in
//! `%22` (an encoded double quote) and the comparison sign is the encoded
//! `%3e`. The less-than forms put the value before the field, and the
//! service expects exactly that order.
use vstd::prelude::*;
use crate::text::{decimal, push_char, push_decimal, push_str};

verus! {

/// A value that a document field is compared against.
pub enum ExprValue {
    Str(String),
    Number(u32),
    /// A nested object; the filter syntax has no comparison for it.
    Object(Vec<(String, String)>),
}

/// A filter over the documents of a table.
pub enum Expr {
    /// Every document.
    All,
    Eq(String, ExprValue),
    Gt(String, ExprValue),
    Gte(String, ExprValue),
    Lt(String, ExprValue),
    Lte(String, ExprValue),
    And(Box<Expr>, Box<Expr>),
    Or(Box<Expr>, Box<Expr>),
}

/// Why a filter could not be compiled.
#[derive(Debug, PartialEq, Eq, Structural)]
pub enum ExprError {
    /// The filter uses a combinator or a value that the query syntax lacks.
    Unsupported,
}

/// The encoded double quote that wraps string literals.
pub open spec fn quote() -> Seq<char> {
    seq!['%', '2', '2']
}

/// The encoded comparison sign.
pub open spec fn greater() -> Seq<char> {
    seq!['%', '3', 'e']
}

/// How a value is written in a filter, if it can be.
pub open spec fn value_text(v: ExprValue) -> Option<Seq<char>> {
    match v {
        ExprValue::Str(s) => Some(quote() + s@ + quote()),
        ExprValue::Number(n) => Some(decimal(n as nat)),
        ExprValue::Object(_) => None,
    }
}

/// The query text of a filter, or `None` where the syntax cannot express it.
pub open spec fn compiled(e: Expr) -> Option<Seq<char>> {
    match e {
        Expr::All => Some(Seq::empty()),
        Expr::Eq(f, v) => match value_text(v) {
            Some(t) => Some(f@ + seq!['='] + t),
            None => None,
        },
        Expr::Gt(f, v) => match value_text(v) {
            Some(t) => Some(f@ + greater() + t),
            None => None,
        },
        Expr::Gte(f, v) => match value_text(v) {
            Some(t) => Some(f@ + greater() + seq!['='] + t),
            None => None,
        },
        Expr::Lt(f, v) => match value_text(v) {
            Some(t) => Some(t + greater() + f@),
            None => None,
        },
        Expr::Lte(f, v) => match value_text(v) {
            Some(t) => Some(t + greater() + seq!['='] + f@),
            None => None,
        },
        Expr::And(_, _) => None,
        Expr::Or(_, _) => None,
    }
}

fn push_quote(out: &mut String)
    ensures
        final(out)@ == old(out)@ + quote(),
{
    push_char(out, '%');
    push_char(out, '2');
    push_char(out, '2');
    assert(final(out)@ =~= old(out)@ + quote());
}

fn push_greater(out: &mut String)
    ensures
        final(out)@ == old(out)@ + greater(),
{
    push_char(out, '%');
    push_char(out, '3');
    push_char(out, 'e');
    assert(final(out)@ =~= old(out)@ + greater());
}

/// Appends the text of a value; `false` (and `out` unchanged) where the
/// value has none.
fn push_value(out: &mut String, v: &ExprValue) -> (ok: bool)
    ensures
        ok == (value_text(*v) is Some),
        ok ==> final(out)@ == old(out)@ + value_text(*v)->Some_0,
        !ok ==> final(out)@ == old(out)@,
{
    match v {
        ExprValue::Str(s) => {
            push_quote(out);
            push_str(out, s.as_str());
            push_quote(out);
            assert(final(out)@ =~= old(out)@ + (quote() + s@ + quote()));
            true
        },
        ExprValue::Number(n) => {
            push_decimal(out, *n as u64);
            true
        },
        ExprValue::Object(_) => false,
    }
}

/// Compiles a filter to the query text the service reads.
///
/// `All` gives the empty text (no filter); `And`, `Or` and object values have
/// no form in the syntax and give `Unsupported`.
pub fn compile(e: &Expr) -> (r: Result<String, ExprError>)
    ensures
        match r {
            Ok(s) => compiled(*e) == Some(s@),
            Err(err) => compiled(*e) is None && err == ExprError::Unsupported,
        },
{
    let mut out = String::new();
    match e {
        Expr::All => Ok(out),
        Expr::Eq(f, v) => {
            push_str(&mut out, f.as_str());
            push_char(&mut out, '=');
            if push_value(&mut out, v) {
                assert(out@ =~= f@ + seq!['='] + value_text(*v)->Some_0);
                Ok(out)
            } else {
                Err(ExprError::Unsupported)
            }
        },
        Expr::Gt(f, v) => {
            push_str(&mut out, f.as_str());
            push_greater(&mut out);
            if push_value(&mut out, v) {
                assert(out@ =~= f@ + greater() + value_text(*v)->Some_0);
                Ok(out)
            } else {
                Err(ExprError::Unsupported)
            }
        },
        Expr::Gte(f, v) => {
            push_str(&mut out, f.as_str());
            push_greater(&mut out);
            push_char(&mut out, '=');
            if push_value(&mut out, v) {
                assert(out@ =~= f@ + greater() + seq!['='] + value_text(*v)->Some_0);
                Ok(out)
            } else {
                Err(ExprError::Unsupported)
            }
        },
        Expr::Lt(f, v) => {
            if push_value(&mut out, v) {
                push_greater(&mut out);
                push_str(&mut out, f.as_str());
                assert(out@ =~= value_text(*v)->Some_0 + greater() + f@);
                Ok(out)
            } else {
                Err(ExprError::Unsupported)
            }
        },
        Expr::Lte(f, v) => {
            if push_value(&mut out, v) {
                push_greater(&mut out);
                push_char(&mut out, '=');
                push_str(&mut out, f.as_str());
                assert(out@ =~= value_text(*v)->Some_0 + greater() + seq!['='] + f@);
                Ok(out)
            } else {
                Err(ExprError::Unsupported)
            }
        },
        Expr::And(_, _) => Err(ExprError::Unsupported),
        Expr::Or(_, _) => Err(ExprError::Unsupported),
    }
}

/// The less-than forms write the same two operands as the greater-than
/// forms, in the opposite order: `v%3ef` against `f%3ev`, and `v%3e=f`
/// against `f%3e=v`.
pub proof fn lemma_less_than_swaps_operands(field: String, v: ExprValue)
    requires
        value_text(v) is Some,
    ensures
        ({
            let t = value_text(v)->Some_0;
            &&& compiled(Expr::Gt(field, v)) == Some(field@ + greater() + t)
            &&& compiled(Expr::Lt(field, v)) == Some(t + greater() + field@)
            &&& compiled(Expr::Gte(field, v)) == Some(field@ + greater() + seq!['='] + t)
            &&& compiled(Expr::Lte(field, v)) == Some(t + greater() + seq!['='] + field@)
        }),
{
}

/// The filter that selects everything compiles to the empty text.
pub proof fn lemma_all_is_empty()
    ensures
        compiled(Expr::All) == Some(Seq::<char>::empty()),
{
}

} // verus!
