//! Hexadecimal digits and the two-digit codes that make up one colour channel.
use vstd::prelude::*;
use vstd::string::StrSliceExecFns;

use crate::rgb::{byte_hex, rgb_hex, RGB};

verus! {

/// Why a colour code could not be decoded.
#[derive(Debug, Clone, Copy, PartialEq, Eq, Structural)]
pub enum ParseError {
    /// The code has fewer than six characters.
    InvalidHexLength,
    /// One of the first six characters is not a hexadecimal digit.
    InvalidHexDigit,
}

/// `c` is one of `0-9`, `a-f`, `A-F`.
pub open spec fn is_hex_digit(c: char) -> bool {
    ('0' <= c && c <= '9') || ('a' <= c && c <= 'f') || ('A' <= c && c <= 'F')
}

/// The value of a hexadecimal digit, case-insensitive.
pub open spec fn hex_value(c: char) -> int {
    if '0' <= c && c <= '9' {
        c as int - '0' as int
    } else if 'a' <= c && c <= 'f' {
        c as int - 'a' as int + 10
    } else if 'A' <= c && c <= 'F' {
        c as int - 'A' as int + 10
    } else {
        0
    }
}

/// The upper-case digit for a value below 16.
pub open spec fn hex_char(v: int) -> char {
    if v < 10 {
        (v + '0' as int) as char
    } else {
        (v - 10 + 'A' as int) as char
    }
}

/// A hexadecimal digit written in upper case.
pub open spec fn upper_hex(c: char) -> char {
    if 'a' <= c && c <= 'f' {
        (c as int - 'a' as int + 'A' as int) as char
    } else {
        c
    }
}

/// The byte that the two digits `hi`, `lo` stand for.
pub open spec fn byte_of(hi: char, lo: char) -> u8 {
    (16 * hex_value(hi) + hex_value(lo)) as u8
}

/// What decoding the two-character code `s` gives.
pub open spec fn decode_pair(s: Seq<char>) -> Result<u8, ParseError> {
    if is_hex_digit(s[0]) && is_hex_digit(s[1]) {
        Ok(byte_of(s[0], s[1]))
    } else {
        Err(ParseError::InvalidHexDigit)
    }
}

proof fn lemma_hex_value_range(c: char)
    requires
        is_hex_digit(c),
    ensures
        0 <= hex_value(c) < 16,
        hex_char(hex_value(c)) == upper_hex(c),
{
}

/// The value of one hexadecimal digit, or `None` for any other character.
pub fn digit_value(c: char) -> (r: Option<u8>)
    ensures
        r is Some <==> is_hex_digit(c),
        r is Some ==> r->0 as int == hex_value(c),
{
    if '0' <= c && c <= '9' {
        Some((c as u32 - '0' as u32) as u8)
    } else if 'a' <= c && c <= 'f' {
        Some((c as u32 - 'a' as u32 + 10) as u8)
    } else if 'A' <= c && c <= 'F' {
        Some((c as u32 - 'A' as u32 + 10) as u8)
    } else {
        None
    }
}

/// A two-character code for one colour channel.
#[derive(Debug)]
pub struct Hex {
    first: char,
    second: char,
}

impl View for Hex {
    type V = Seq<char>;

    closed spec fn view(&self) -> Seq<char> {
        seq![self.first, self.second]
    }
}

impl Hex {
    pub fn new(first: char, second: char) -> (r: Hex)
        ensures
            r@ == seq![first, second],
    {
        Hex { first, second }
    }

    /// The byte that the code stands for, read as a base-16 number.
    pub fn to_dec(&self) -> (r: Result<u8, ParseError>)
        ensures
            self@.len() == 2,
            r == decode_pair(self@),
    {
        let hi = digit_value(self.first);
        let lo = digit_value(self.second);
        match (hi, lo) {
            (Some(h), Some(l)) => Ok(16 * h + l),
            _ => Err(ParseError::InvalidHexDigit),
        }
    }
}

proof fn lemma_byte_round_trip(hi: char, lo: char)
    requires
        is_hex_digit(hi),
        is_hex_digit(lo),
    ensures
        byte_hex(byte_of(hi, lo)) == seq![upper_hex(hi), upper_hex(lo)],
{
    lemma_hex_value_range(hi);
    lemma_hex_value_range(lo);
    let v = 16 * hex_value(hi) + hex_value(lo);
    assert(v / 16 == hex_value(hi) && v % 16 == hex_value(lo));
    assert(byte_hex(byte_of(hi, lo)) =~= seq![upper_hex(hi), upper_hex(lo)]);
}

/// Decoding a valid six-digit code and writing the colour back out as
/// hexadecimal gives the code in upper case.
pub proof fn lemma_hex_round_trip(s: Seq<char>)
    requires
        s.len() == 6,
        forall|i: int| 0 <= i < 6 ==> is_hex_digit(#[trigger] s[i]),
    ensures
        parse_hex(s) is Ok,
        rgb_hex(parse_hex(s)->Ok_0) == s.map_values(|c: char| upper_hex(c)),
{
    lemma_byte_round_trip(s[0], s[1]);
    lemma_byte_round_trip(s[2], s[3]);
    lemma_byte_round_trip(s[4], s[5]);
    assert(rgb_hex(parse_hex(s)->Ok_0) =~= s.map_values(|c: char| upper_hex(c)));
}

/// What decoding the colour code `s` gives: its first six characters, read
/// as three two-digit channels; anything after them is ignored.
pub open spec fn parse_hex(s: Seq<char>) -> Result<RGB, ParseError> {
    if s.len() < 6 {
        Err(ParseError::InvalidHexLength)
    } else if !(forall|i: int| 0 <= i < 6 ==> is_hex_digit(#[trigger] s[i])) {
        Err(ParseError::InvalidHexDigit)
    } else {
        Ok(RGB { r: byte_of(s[0], s[1]), g: byte_of(s[2], s[3]), b: byte_of(s[4], s[5]) })
    }
}

/// A colour code as given by the user, such as `1A2B3C`.
#[derive(Debug)]
pub struct HexString {
    hex_string: String,
}

impl View for HexString {
    type V = Seq<char>;

    closed spec fn view(&self) -> Seq<char> {
        self.hex_string@
    }
}

impl HexString {
    pub fn new(hex_string: String) -> (h: HexString)
        ensures
            h@ == hex_string@,
    {
        HexString { hex_string }
    }

    /// The code as it was given.
    pub fn as_str(&self) -> (s: &str)
        ensures
            s@ == self@,
    {
        self.hex_string.as_str()
    }

    /// The three channel codes at positions `[0, 2)`, `[2, 4)` and `[4, 6)`.
    fn split_to_hex(&self) -> (r: Result<Vec<Hex>, ParseError>)
        ensures
            self@.len() < 6 <==> r is Err,
            r is Err ==> r->Err_0 == ParseError::InvalidHexLength,
            r is Ok ==> r->Ok_0@.len() == 3 && forall|k: int|
                0 <= k < 3 ==> (#[trigger] r->Ok_0@[k])@ == self@.subrange(2 * k, 2 * k + 2),
    {
        let s = self.hex_string.as_str();
        if s.unicode_len() < 6 {
            return Err(ParseError::InvalidHexLength);
        }
        let r = Hex::new(s.get_char(0), s.get_char(1));
        let g = Hex::new(s.get_char(2), s.get_char(3));
        let b = Hex::new(s.get_char(4), s.get_char(5));
        let v = vec![r, g, b];
        assert(v@[0]@ =~= self@.subrange(0, 2));
        assert(v@[1]@ =~= self@.subrange(2, 4));
        assert(v@[2]@ =~= self@.subrange(4, 6));
        Ok(v)
    }

    /// Decodes the code into a colour.
    pub fn to_rgb(&self) -> (r: Result<RGB, ParseError>)
        ensures
            r == parse_hex(self@),
            self@.len() < 6 ==> r == Err::<RGB, ParseError>(ParseError::InvalidHexLength),
            self@.len() >= 6 && (exists|i: int| 0 <= i < 6 && !is_hex_digit(#[trigger] self@[i]))
                ==> r == Err::<RGB, ParseError>(ParseError::InvalidHexDigit),
    {
        let hexes = match self.split_to_hex() {
            Ok(v) => v,
            Err(e) => return Err(e),
        };
        let mut dec_vec: Vec<u8> = Vec::with_capacity(3);
        let mut k: usize = 0;
        while k < 3
            invariant
                k <= 3,
                self@.len() >= 6,
                hexes@.len() == 3,
                forall|j: int| 0 <= j < 3 ==> (#[trigger] hexes@[j])@ == self@.subrange(2 * j, 2 * j + 2),
                dec_vec@.len() == k,
                forall|j: int| 0 <= j < 2 * k ==> is_hex_digit(#[trigger] self@[j]),
                forall|j: int| 0 <= j < k ==> #[trigger] dec_vec@[j] == byte_of(self@[2 * j], self@[2 * j + 1]),
            decreases 3 - k,
        {
            let d = hexes[k].to_dec();
            assert(hexes@[k as int]@[0] == self@[2 * k]);
            assert(hexes@[k as int]@[1] == self@[2 * k + 1]);
            match d {
                Ok(v) => dec_vec.push(v),
                Err(e) => {
                    assert(!is_hex_digit(self@[2 * k]) || !is_hex_digit(self@[2 * k + 1]));
                    return Err(e);
                },
            }
            k = k + 1;
        }
        let c = RGB::new(dec_vec);
        assert(forall|i: int| 0 <= i < 6 ==> is_hex_digit(#[trigger] self@[i]));
        Ok(c)
    }
}

} // verus!
