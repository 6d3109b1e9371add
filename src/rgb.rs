//! A colour as three 8-bit channels.
use vstd::prelude::*;

use crate::hex::hex_char;

verus! {

/// Red, green and blue, each in `0..=255`.
#[derive(Debug, Clone, Copy, PartialEq, Eq, Structural)]
pub struct RGB {
    pub r: u8,
    pub g: u8,
    pub b: u8,
}

/// The two upper-case digits of a byte.
pub open spec fn byte_hex(v: u8) -> Seq<char> {
    seq![hex_char(v as int / 16), hex_char(v as int % 16)]
}

/// The six-digit upper-case code of a colour.
pub open spec fn rgb_hex(c: RGB) -> Seq<char> {
    byte_hex(c.r) + byte_hex(c.g) + byte_hex(c.b)
}

/// The one-character string of the upper-case digit for `v`.
fn digit_str(v: u8) -> (r: &'static str)
    requires
        v < 16,
    ensures
        r@ == seq![hex_char(v as int)],
{
    proof {
        reveal_strlit("0");
        reveal_strlit("1");
        reveal_strlit("2");
        reveal_strlit("3");
        reveal_strlit("4");
        reveal_strlit("5");
        reveal_strlit("6");
        reveal_strlit("7");
        reveal_strlit("8");
        reveal_strlit("9");
        reveal_strlit("A");
        reveal_strlit("B");
        reveal_strlit("C");
        reveal_strlit("D");
        reveal_strlit("E");
        reveal_strlit("F");
    }
    let r = match v {
        0 => "0",
        1 => "1",
        2 => "2",
        3 => "3",
        4 => "4",
        5 => "5",
        6 => "6",
        7 => "7",
        8 => "8",
        9 => "9",
        10 => "A",
        11 => "B",
        12 => "C",
        13 => "D",
        14 => "E",
        _ => "F",
    };
    assert(r@ =~= seq![hex_char(v as int)]);
    r
}

/// Appends the two upper-case digits of `v` to `s`.
fn push_byte(s: &mut String, v: u8)
    ensures
        final(s)@ == old(s)@ + byte_hex(v),
{
    s.append(digit_str(v / 16));
    s.append(digit_str(v % 16));
    assert(final(s)@ =~= old(s)@ + byte_hex(v));
}

impl RGB {
    /// Builds a colour from its first three bytes, in the order red, green, blue.
    pub fn new(decs: Vec<u8>) -> (c: RGB)
        requires
            decs@.len() >= 3,
        ensures
            c == (RGB { r: decs@[0], g: decs@[1], b: decs@[2] }),
    {
        RGB { r: decs[0], g: decs[1], b: decs[2] }
    }

    /// The six-digit upper-case hexadecimal code of the colour.
    pub fn to_hex(&self) -> (s: String)
        ensures
            s@ == rgb_hex(*self),
    {
        let mut s = String::new();
        push_byte(&mut s, self.r);
        push_byte(&mut s, self.g);
        push_byte(&mut s, self.b);
        assert(s@ =~= rgb_hex(*self));
        s
    }
}

} // verus!
