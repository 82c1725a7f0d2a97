//! Character-level helpers shared by the encoders and decoders.
use vstd::prelude::*;

verus! {

/// Relies on `String::push`: the character is appended at the end.
#[verifier::external_body]
pub(crate) fn push_char(s: &mut String, c: char)
    ensures
        final(s)@ == old(s)@.push(c),
{
    s.push(c)
}

/// Appends every byte of `b` to `out`.
pub(crate) fn push_bytes(out: &mut Vec<u8>, b: &[u8])
    ensures
        final(out)@ == old(out)@ + b@,
{
    let mut i: usize = 0;
    while i < b.len()
        invariant
            i <= b@.len(),
            out@ == old(out)@ + b@.subrange(0, i as int),
        decreases b@.len() - i,
    {
        out.push(b[i]);
        i = i + 1;
        assert(out@ =~= old(out)@ + b@.subrange(0, i as int));
    }
    assert(b@.subrange(0, b@.len() as int) =~= b@);
}

/// Appends every character of `t` to `s`.
pub(crate) fn push_str(s: &mut String, t: &str)
    ensures
        final(s)@ == old(s)@ + t@,
{
    s.append(t);
}

/// The characters of `s`, one per element.
pub(crate) fn chars_of(s: &str) -> (r: Vec<char>)
    ensures
        r@ == s@,
{
    let n = s.unicode_len();
    let mut r: Vec<char> = Vec::new();
    let mut i: usize = 0;
    while i < n
        invariant
            n == s@.len(),
            i <= n,
            r@ == s@.subrange(0, i as int),
        decreases n - i,
    {
        let c = s.get_char(i);
        r.push(c);
        i = i + 1;
        assert(r@ =~= s@.subrange(0, i as int));
    }
    assert(r@ =~= s@);
    r
}

/// Whether two strings hold the same characters.
pub(crate) fn str_eq(a: &str, b: &str) -> (r: bool)
    ensures
        r == (a@ == b@),
{
    let x = String::from_str(a);
    let y = String::from_str(b);
    x == y
}

/// The decimal digit that stands for `d`, for `0 <= d < 10`.
pub open spec fn digit_char(d: nat) -> char {
    if d == 0 {
        '0'
    } else if d == 1 {
        '1'
    } else if d == 2 {
        '2'
    } else if d == 3 {
        '3'
    } else if d == 4 {
        '4'
    } else if d == 5 {
        '5'
    } else if d == 6 {
        '6'
    } else if d == 7 {
        '7'
    } else if d == 8 {
        '8'
    } else {
        '9'
    }
}

/// Whether `c` is one of the ASCII digits `0` to `9`.
pub open spec fn is_digit(c: char) -> bool {
    '0' <= c && c <= '9'
}

/// The value of the ASCII digit `c`.
pub open spec fn digit_value(c: char) -> nat {
    (c as u32 - '0' as u32) as nat
}

/// The shortest decimal rendering of `n`, without sign or leading zeros.
pub open spec fn decimal(n: nat) -> Seq<char>
    decreases n,
{
    if n < 10 {
        seq![digit_char(n)]
    } else {
        decimal(n / 10).push(digit_char(n % 10))
    }
}

/// Whether `s` is a non-empty run of ASCII digits.
pub open spec fn is_decimal(s: Seq<char>) -> bool {
    s.len() > 0 && forall|i: int| 0 <= i < s.len() ==> is_digit(#[trigger] s[i])
}

/// The number that the ASCII digits `s` spell in base ten.
pub open spec fn digits_value(s: Seq<char>) -> nat
    decreases s.len(),
{
    if s.len() == 0 {
        0
    } else {
        digits_value(s.drop_last()) * 10 + digit_value(s.last())
    }
}

proof fn lemma_digit_char(d: nat)
    requires
        d < 10,
    ensures
        is_digit(digit_char(d)),
        digit_value(digit_char(d)) == d,
{
}

/// The rendering of `n` is a decimal numeral whose value is `n`.
pub proof fn lemma_decimal(n: nat)
    ensures
        is_decimal(decimal(n)),
        digits_value(decimal(n)) == n,
    decreases n,
{
    if n < 10 {
        lemma_digit_char(n);
        assert(decimal(n).drop_last() =~= Seq::<char>::empty());
        assert(digits_value(Seq::<char>::empty()) == 0);
    } else {
        lemma_decimal(n / 10);
        lemma_digit_char(n % 10);
        let d = decimal(n);
        assert(d.drop_last() =~= decimal(n / 10));
        assert(d.last() == digit_char(n % 10));
        assert(digits_value(d) == digits_value(decimal(n / 10)) * 10 + digit_value(digit_char(n % 10)));
        assert(n == (n / 10) * 10 + n % 10);
        assert forall|i: int| 0 <= i < d.len() implies is_digit(#[trigger] d[i]) by {
            if i < d.len() - 1 {
                assert(d[i] == decimal(n / 10)[i]);
            }
        }
    }
}

/// A prefix of a numeral never spells more than the whole numeral.
proof fn lemma_prefix_value_le(s: Seq<char>, k: int)
    requires
        0 <= k <= s.len(),
    ensures
        digits_value(s.subrange(0, k)) <= digits_value(s),
    decreases s.len(),
{
    if k < s.len() {
        assert(s.drop_last() =~= s.drop_last().subrange(0, s.len() - 1));
        lemma_prefix_value_le(s.drop_last(), k);
        assert(s.drop_last().subrange(0, k) =~= s.subrange(0, k));
    } else {
        assert(s.subrange(0, k) =~= s);
    }
}

fn digit_to_char(d: u64) -> (c: char)
    requires
        d < 10,
    ensures
        c == digit_char(d as nat),
{
    if d == 0 {
        '0'
    } else if d == 1 {
        '1'
    } else if d == 2 {
        '2'
    } else if d == 3 {
        '3'
    } else if d == 4 {
        '4'
    } else if d == 5 {
        '5'
    } else if d == 6 {
        '6'
    } else if d == 7 {
        '7'
    } else if d == 8 {
        '8'
    } else {
        '9'
    }
}

/// Appends the decimal rendering of `n`.
pub(crate) fn push_decimal(out: &mut String, n: u64)
    ensures
        final(out)@ == old(out)@ + decimal(n as nat),
    decreases n,
{
    if n >= 10 {
        push_decimal(out, n / 10);
    }
    push_char(out, digit_to_char(n % 10));
    proof {
        if n >= 10 {
            assert(decimal(n as nat) == decimal((n / 10) as nat).push(digit_char((n % 10) as nat)));
        }
    }
}

/// Reads a decimal numeral: `Some` exactly when `s` is a non-empty run of
/// ASCII digits whose value fits in a `u64`.
pub(crate) fn parse_digits(s: &Vec<char>) -> (r: Option<u64>)
    ensures
        r == (if is_decimal(s@) && digits_value(s@) <= u64::MAX {
            Some(digits_value(s@) as u64)
        } else {
            None::<u64>
        }),
{
    if s.len() == 0 {
        return None;
    }
    let mut acc: u64 = 0;
    let mut i: usize = 0;
    while i < s.len()
        invariant
            i <= s@.len(),
            s@.len() > 0,
            acc == digits_value(s@.subrange(0, i as int)),
            forall|j: int| 0 <= j < i ==> is_digit(#[trigger] s@[j]),
        decreases s@.len() - i,
    {
        let c = s[i];
        assert(s@.subrange(0, i + 1).drop_last() =~= s@.subrange(0, i as int));
        if !('0' <= c && c <= '9') {
            return None;
        }
        let d = (c as u32 - '0' as u32) as u64;
        if acc > (u64::MAX - d) / 10 {
            proof {
                lemma_prefix_value_le(s@, i + 1);
            }
            return None;
        }
        acc = acc * 10 + d;
        i = i + 1;
    }
    assert(s@.subrange(0, s@.len() as int) =~= s@);
    Some(acc)
}

/// The `u64` a decimal numeral spells, if it is one and fits.
pub open spec fn u64_of(s: Seq<char>) -> Option<u64> {
    if is_decimal(s) && digits_value(s) <= u64::MAX {
        Some(digits_value(s) as u64)
    } else {
        None
    }
}

/// The `u32` a decimal numeral spells, if it is one and fits.
pub open spec fn u32_of(s: Seq<char>) -> Option<u32> {
    if is_decimal(s) && digits_value(s) <= u32::MAX {
        Some(digits_value(s) as u32)
    } else {
        None
    }
}

/// Reads a decimal numeral as a `u64`.
pub fn parse_u64(s: &str) -> (r: Option<u64>)
    ensures
        r == u64_of(s@),
{
    let cs = chars_of(s);
    parse_digits(&cs)
}

/// Reads a decimal numeral as a `u32`.
pub fn parse_u32(s: &str) -> (r: Option<u32>)
    ensures
        r == u32_of(s@),
{
    match parse_u64(s) {
        Some(v) => {
            if v <= u32::MAX as u64 {
                Some(v as u32)
            } else {
                None
            }
        },
        None => None,
    }
}

} // verus!
