//! Identifiers for stored media: a 128-bit identifier with its hyphenated
//! lowercase hexadecimal notation, as it appears in storage keys.

use vstd::prelude::*;

verus! {

/// The character for one hexadecimal digit, lowercase.
pub open spec fn hex_char(d: nat) -> char {
    if d < 10 {
        crate::text::digit_char(d)
    } else if d == 10 {
        'a'
    } else if d == 11 {
        'b'
    } else if d == 12 {
        'c'
    } else if d == 13 {
        'd'
    } else if d == 14 {
        'e'
    } else {
        'f'
    }
}

/// The hexadecimal notation of a number on a fixed number of digits,
/// zero-padded, most significant digit first.
pub open spec fn hex_fixed(n: nat, width: nat) -> Seq<char>
    decreases width,
{
    if width == 0 {
        Seq::empty()
    } else {
        hex_fixed(n / 16, (width - 1) as nat) + seq![hex_char(n % 16)]
    }
}

/// A one-character string for a hexadecimal digit.
pub fn hex_char_str(d: u8) -> (r: &'static str)
    requires
        d < 16,
    ensures
        r@ == seq![hex_char(d as nat)],
{
    proof {
        reveal_strlit("a");
        reveal_strlit("b");
        reveal_strlit("c");
        reveal_strlit("d");
        reveal_strlit("e");
        reveal_strlit("f");
    }
    if d < 10 {
        crate::text::digit_char_str(d)
    } else {
        match d {
            10 => "a",
            11 => "b",
            12 => "c",
            13 => "d",
            14 => "e",
            _ => "f",
        }
    }
}

/// Formats the low `width` hexadecimal digits of a number, zero-padded.
fn fmt_hex_fixed(n: u64, width: u8) -> (s: String)
    ensures
        s@ == hex_fixed(n as nat, width as nat),
    decreases width,
{
    if width == 0 {
        String::new()
    } else {
        let mut s = fmt_hex_fixed(n / 16, width - 1);
        s.append(hex_char_str((n % 16) as u8));
        s
    }
}

/// A 128-bit identifier, held as two 64-bit halves, most significant first.
#[derive(Debug, Clone, Copy, PartialEq, Eq, Structural)]
pub struct Uuid {
    /// The most significant 64 bits.
    pub hi: u64,

    /// The least significant 64 bits.
    pub lo: u64,
}

/// The hyphenated lowercase hexadecimal notation of an identifier:
/// five groups of 8, 4, 4, 4 and 12 hexadecimal digits.
pub open spec fn uuid_str(u: Uuid) -> Seq<char> {
    hex_fixed(u.hi as nat / 0x100000000, 8) + seq!['-'] + hex_fixed(
        u.hi as nat / 0x10000 % 0x10000,
        4,
    ) + seq!['-'] + hex_fixed(u.hi as nat % 0x10000, 4) + seq!['-'] + hex_fixed(
        u.lo as nat / 0x1000000000000,
        4,
    ) + seq!['-'] + hex_fixed(u.lo as nat % 0x1000000000000, 12)
}

impl Uuid {
    /// Builds an identifier from its two halves.
    pub fn new(hi: u64, lo: u64) -> (r: Uuid)
        ensures
            r == (Uuid { hi, lo }),
    {
        Uuid { hi, lo }
    }

    /// Formats the identifier in its hyphenated lowercase notation.
    pub fn format(&self) -> (s: String)
        ensures
            s@ == uuid_str(*self),
    {
        proof {
            reveal_strlit("-");
        }
        let mut s = fmt_hex_fixed(self.hi / 0x100000000, 8);
        s.append("-");
        s.append(fmt_hex_fixed(self.hi / 0x10000 % 0x10000, 4).as_str());
        s.append("-");
        s.append(fmt_hex_fixed(self.hi % 0x10000, 4).as_str());
        s.append("-");
        s.append(fmt_hex_fixed(self.lo / 0x1000000000000, 4).as_str());
        s.append("-");
        s.append(fmt_hex_fixed(self.lo % 0x1000000000000, 12).as_str());
        s
    }
}

} // verus!
