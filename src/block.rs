//! Block sizes for file uploads, in decimal SI units.
//!
//! A block size is written as its magnitude in decimal followed by a unit
//! letter: none for bytes, then `K`, `M`, `G` and `T` for factors of one
//! thousand. Converting between units counts whole units only, so a
//! conversion to a larger unit drops the remainder.
use vstd::prelude::*;
use crate::text::{
    chars_of, decimal, digits_value, is_decimal, is_digit, lemma_decimal, parse_digits,
    push_char, push_decimal,
};

verus! {

/// A block size: a magnitude in one of five units.
#[derive(Debug, Clone, Copy, PartialEq, Eq, Structural)]
pub enum BlockSize {
    Bytes(u32),
    Kilobytes(u32),
    Megabytes(u32),
    Gigabytes(u32),
    Terabytes(u32),
}

/// The letter that follows the magnitude, or `None` for bytes.
pub open spec fn unit_letter(b: BlockSize) -> Option<char> {
    match b {
        BlockSize::Bytes(_) => None,
        BlockSize::Kilobytes(_) => Some('K'),
        BlockSize::Megabytes(_) => Some('M'),
        BlockSize::Gigabytes(_) => Some('G'),
        BlockSize::Terabytes(_) => Some('T'),
    }
}

/// Whether `c` is one of the unit letters.
pub open spec fn is_unit_letter(c: char) -> bool {
    c == 'K' || c == 'M' || c == 'G' || c == 'T'
}

/// The block size of magnitude `n` in the unit that `letter` names, bytes
/// where it names none.
pub open spec fn with_unit(letter: Option<char>, n: u32) -> BlockSize {
    match letter {
        Some('K') => BlockSize::Kilobytes(n),
        Some('M') => BlockSize::Megabytes(n),
        Some('G') => BlockSize::Gigabytes(n),
        Some('T') => BlockSize::Terabytes(n),
        _ => BlockSize::Bytes(n),
    }
}

/// The text of a block size.
pub open spec fn formatted(b: BlockSize) -> Seq<char> {
    match unit_letter(b) {
        Some(c) => decimal(b.magnitude() as nat).push(c),
        None => decimal(b.magnitude() as nat),
    }
}

/// The block size that `digits` written in the unit of `letter` stands for.
pub open spec fn read_magnitude(letter: Option<char>, digits: Seq<char>) -> Option<BlockSize> {
    if is_decimal(digits) && digits_value(digits) <= u32::MAX {
        Some(with_unit(letter, digits_value(digits) as u32))
    } else {
        None
    }
}

/// The block size that a text stands for: a decimal magnitude that fits in
/// a `u32`, then at most one unit letter.
pub open spec fn parsed(s: Seq<char>) -> Option<BlockSize> {
    if s.len() > 0 && is_unit_letter(s.last()) {
        read_magnitude(Some(s.last()), s.drop_last())
    } else {
        read_magnitude(None, s)
    }
}

impl BlockSize {
    /// The number in front of the unit.
    pub open spec fn magnitude(self) -> u32 {
        match self {
            BlockSize::Bytes(n) => n,
            BlockSize::Kilobytes(n) => n,
            BlockSize::Megabytes(n) => n,
            BlockSize::Gigabytes(n) => n,
            BlockSize::Terabytes(n) => n,
        }
    }

    /// How many bytes one unit holds.
    pub open spec fn scale(self) -> nat {
        match self {
            BlockSize::Bytes(_) => 1,
            BlockSize::Kilobytes(_) => 1_000,
            BlockSize::Megabytes(_) => 1_000_000,
            BlockSize::Gigabytes(_) => 1_000_000_000,
            BlockSize::Terabytes(_) => 1_000_000_000_000,
        }
    }

    /// The size in bytes.
    pub open spec fn bytes(self) -> nat {
        self.magnitude() as nat * self.scale()
    }

    fn unit_scale(&self) -> (r: u128)
        ensures
            r == self.scale(),
    {
        match self {
            BlockSize::Bytes(_) => 1,
            BlockSize::Kilobytes(_) => 1_000,
            BlockSize::Megabytes(_) => 1_000_000,
            BlockSize::Gigabytes(_) => 1_000_000_000,
            BlockSize::Terabytes(_) => 1_000_000_000_000,
        }
    }

    /// The number in front of the unit.
    pub fn get_magnitude(&self) -> (r: u32)
        ensures
            r == self.magnitude(),
    {
        match self {
            BlockSize::Bytes(n) => *n,
            BlockSize::Kilobytes(n) => *n,
            BlockSize::Megabytes(n) => *n,
            BlockSize::Gigabytes(n) => *n,
            BlockSize::Terabytes(n) => *n,
        }
    }

    /// The size in bytes.
    pub fn byte_count(&self) -> (r: u128)
        ensures
            r == self.bytes(),
    {
        let m = self.get_magnitude() as u128;
        let s = self.unit_scale();
        assert(m * s <= 0xffff_ffff * 1_000_000_000_000) by (nonlinear_arith)
            requires
                m <= 0xffff_ffff,
                s <= 1_000_000_000_000,
        ;
        m * s
    }

    /// The whole number of units of `scale` bytes in this size.
    fn count_in(&self, scale: u128) -> (r: u32)
        requires
            scale > 0,
            self.bytes() / (scale as nat) <= u32::MAX,
        ensures
            r == self.bytes() / (scale as nat),
    {
        (self.byte_count() / scale) as u32
    }

    /// This size in bytes.
    pub fn to_bytes(&self) -> (r: BlockSize)
        requires
            self.bytes() <= u32::MAX,
        ensures
            r == BlockSize::Bytes(self.bytes() as u32),
    {
        BlockSize::Bytes(self.count_in(1))
    }

    /// This size in whole kilobytes, the remainder dropped.
    pub fn to_kilobytes(&self) -> (r: BlockSize)
        requires
            self.bytes() / 1_000 <= u32::MAX,
        ensures
            r == BlockSize::Kilobytes((self.bytes() / 1_000) as u32),
    {
        BlockSize::Kilobytes(self.count_in(1_000))
    }

    /// This size in whole megabytes, the remainder dropped.
    pub fn to_megabytes(&self) -> (r: BlockSize)
        requires
            self.bytes() / 1_000_000 <= u32::MAX,
        ensures
            r == BlockSize::Megabytes((self.bytes() / 1_000_000) as u32),
    {
        BlockSize::Megabytes(self.count_in(1_000_000))
    }

    /// This size in whole gigabytes, the remainder dropped.
    pub fn to_gigabytes(&self) -> (r: BlockSize)
        requires
            self.bytes() / 1_000_000_000 <= u32::MAX,
        ensures
            r == BlockSize::Gigabytes((self.bytes() / 1_000_000_000) as u32),
    {
        BlockSize::Gigabytes(self.count_in(1_000_000_000))
    }

    /// This size in whole terabytes, the remainder dropped.
    pub fn to_terabytes(&self) -> (r: BlockSize)
        requires
            self.bytes() / 1_000_000_000_000 <= u32::MAX,
        ensures
            r == BlockSize::Terabytes((self.bytes() / 1_000_000_000_000) as u32),
    {
        BlockSize::Terabytes(self.count_in(1_000_000_000_000))
    }

    /// The text of this size, as the service reads it (`1000`, `4K`, `1M`).
    pub fn format(&self) -> (r: String)
        ensures
            r@ == formatted(*self),
    {
        let mut out = String::new();
        push_decimal(&mut out, self.get_magnitude() as u64);
        match self {
            BlockSize::Bytes(_) => {},
            BlockSize::Kilobytes(_) => push_char(&mut out, 'K'),
            BlockSize::Megabytes(_) => push_char(&mut out, 'M'),
            BlockSize::Gigabytes(_) => push_char(&mut out, 'G'),
            BlockSize::Terabytes(_) => push_char(&mut out, 'T'),
        }
        assert(out@ =~= formatted(*self));
        out
    }

    /// Reads a block size: a decimal magnitude that fits in a `u32`, then at
    /// most one of the unit letters `K`, `M`, `G`, `T`.
    pub fn parse(s: &str) -> (r: Option<BlockSize>)
        ensures
            r == parsed(s@),
    {
        let mut cs = chars_of(s);
        let n = cs.len();
        let mut letter: Option<char> = None;
        if n > 0 {
            let c = cs[n - 1];
            if c == 'K' || c == 'M' || c == 'G' || c == 'T' {
                letter = Some(c);
                cs.pop();
                assert(cs@ =~= s@.drop_last());
            }
        }
        match parse_digits(&cs) {
            Some(v) => {
                if v <= u32::MAX as u64 {
                    let m = v as u32;
                    let b = match letter {
                        Some('K') => BlockSize::Kilobytes(m),
                        Some('M') => BlockSize::Megabytes(m),
                        Some('G') => BlockSize::Gigabytes(m),
                        Some('T') => BlockSize::Terabytes(m),
                        _ => BlockSize::Bytes(m),
                    };
                    Some(b)
                } else {
                    None
                }
            },
            None => None,
        }
    }
}

/// Reading the text of a block size gives that block size back.
pub proof fn lemma_format_parse_round_trip(b: BlockSize)
    ensures
        parsed(formatted(b)) == Some(b),
{
    let m = b.magnitude();
    lemma_decimal(m as nat);
    let d = decimal(m as nat);
    assert(is_digit(d.last()));
    match unit_letter(b) {
        Some(c) => {
            assert(formatted(b).drop_last() =~= d);
        },
        None => {},
    }
}

/// A conversion to a larger unit keeps whole units only: 1500 bytes are one
/// kilobyte, and no conversion gains bytes.
pub proof fn lemma_conversion_truncates(b: BlockSize)
    requires
        b.bytes() / 1_000 <= u32::MAX,
    ensures
        BlockSize::Kilobytes((b.bytes() / 1_000) as u32).bytes() <= b.bytes(),
        b.bytes() - BlockSize::Kilobytes((b.bytes() / 1_000) as u32).bytes() < 1_000,
{
}

} // verus!
