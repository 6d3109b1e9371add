//! Conversion of a hexadecimal colour code into its RGB triple and its
//! hue / lightness / saturation form.
use vstd::prelude::*;

pub mod hex;
pub mod hls;
pub mod rgb;

use crate::hex::{parse_hex, HexString, ParseError};
use crate::hls::{hls_of, HLS};
use crate::rgb::RGB;

verus! {

/// What `str::to_uppercase` returns for a string.
pub uninterp spec fn upper_of(s: Seq<char>) -> Seq<char>;

/// Relies on `str::to_uppercase`: the upper-case form of the string, which
/// depends on its characters alone.
#[verifier::external_body]
fn uppercase(s: &str) -> (r: String)
    ensures
        r@ == upper_of(s@),
{
    s.to_uppercase()
}

impl HexString {
    /// The code in upper case after a `#`, as it is shown to the user.
    pub fn label(&self) -> (s: String)
        ensures
            s@ == seq!['#'] + upper_of(self@),
    {
        let mut s = String::from_str("#");
        let u = uppercase(self.as_str());
        s.append(u.as_str());
        proof {
            reveal_strlit("#");
        }
        assert(s@ =~= seq!['#'] + upper_of(self@));
        s
    }
}

/// The settings of one run: the colour code to convert.
pub struct Config {
    pub hex: HexString,
}

impl Config {
    /// Reads the colour code from the command line arguments, where `args[0]`
    /// is the program's name.
    pub fn new(args: &[String]) -> (r: Result<Config, &'static str>)
        ensures
            r is Err <==> args@.len() < 2,
            r is Err ==> r->Err_0@ == "Not enought arguments!"@,
            r is Ok ==> r->Ok_0.hex@ == args@[1]@,
    {
        if args.len() < 2 {
            return Err("Not enought arguments!");
        }
        let hex = HexString::new(args[1].clone());
        Ok(Config { hex })
    }
}

/// Converts the configured code: its label, its RGB triple and its hue,
/// lightness and saturation.
pub fn run(config: Config) -> (r: Result<(String, RGB, HLS), ParseError>)
    ensures
        r is Err <==> parse_hex(config.hex@) is Err,
        r is Err ==> r->Err_0 == parse_hex(config.hex@)->Err_0,
        r is Ok ==> ({
            let (label, rgb, hls) = r->Ok_0;
            &&& label@ == seq!['#'] + upper_of(config.hex@)
            &&& rgb == parse_hex(config.hex@)->Ok_0
            &&& hls == hls_of(rgb.r, rgb.g, rgb.b)
        }),
{
    let rgb = match config.hex.to_rgb() {
        Ok(c) => c,
        Err(e) => return Err(e),
    };
    let hls = rgb.to_hls();
    Ok((config.hex.label(), rgb, hls))
}

} // verus!
