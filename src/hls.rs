//! Hue, lightness and saturation of a colour, computed exactly.
//!
//! Each channel `x` stands for the fraction `x / 255`. Lightness is
//! `(max + min) / 2` as a percentage rounded to the nearest integer. Saturation
//! (a percentage) and hue (in degrees) are kept as exact fractions, a numerator
//! over a positive denominator.
use vstd::prelude::*;

use crate::rgb::RGB;

verus! {

pub open spec fn max3(r: int, g: int, b: int) -> int {
    if r >= g && r >= b {
        r
    } else if g >= b {
        g
    } else {
        b
    }
}

pub open spec fn min3(r: int, g: int, b: int) -> int {
    if r <= g && r <= b {
        r
    } else if g <= b {
        g
    } else {
        b
    }
}

/// One channel is strictly greater than both others, so the hue is defined;
/// on a tie for the largest channel the hue is left at zero.
pub open spec fn has_strict_max(r: int, g: int, b: int) -> bool {
    (r > g && r > b) || (g > r && g > b) || (b > g && b > r)
}

/// The hue in degrees is `hue_num_of / hue_den_of`: sixths of the circle
/// `(g - b) / d`, `2 + (b - r) / d` or `4 + (r - g) / d` after the strictly
/// largest channel, with `d = max - min`, times 60.
pub open spec fn hue_num_of(r: int, g: int, b: int) -> int {
    let d = max3(r, g, b) - min3(r, g, b);
    if r > g && r > b {
        60 * (g - b)
    } else if g > r && g > b {
        60 * (2 * d + b - r)
    } else if b > g && b > r {
        60 * (4 * d + r - g)
    } else {
        0
    }
}

pub open spec fn hue_den_of(r: int, g: int, b: int) -> int {
    if has_strict_max(r, g, b) {
        max3(r, g, b) - min3(r, g, b)
    } else {
        1
    }
}

/// `100 * (max + min) / 510`, rounded to the nearest integer (it never lies
/// halfway between two).
pub open spec fn lightness_of(r: int, g: int, b: int) -> int {
    (20 * (max3(r, g, b) + min3(r, g, b)) + 51) / 102
}

/// The saturation in percent is `saturation_num_of / saturation_den_of`:
/// zero when `max == min`, else `(max - min) / (2 - max - min)` when the
/// lightness is above one half, else `(max - min) / (max + min)`, times 100.
pub open spec fn saturation_num_of(r: int, g: int, b: int) -> int {
    100 * (max3(r, g, b) - min3(r, g, b))
}

pub open spec fn saturation_den_of(r: int, g: int, b: int) -> int {
    let mx = max3(r, g, b);
    let mn = min3(r, g, b);
    if mx == mn {
        1
    } else if mx + mn > 255 {
        510 - mx - mn
    } else {
        mx + mn
    }
}

/// A colour as hue, lightness and saturation.
#[derive(Debug, Clone, Copy, PartialEq, Eq, Structural)]
pub struct HLS {
    /// Numerator of the hue in degrees.
    pub hue_num: i32,
    /// Denominator of the hue, positive.
    pub hue_den: u32,
    /// Lightness in percent, rounded.
    pub lightness: u32,
    /// Numerator of the saturation in percent.
    pub saturation_num: u32,
    /// Denominator of the saturation, positive.
    pub saturation_den: u32,
}

/// The hue, lightness and saturation of the colour with channels `r`, `g`, `b`.
pub open spec fn hls_of(r: u8, g: u8, b: u8) -> HLS {
    let (r, g, b) = (r as int, g as int, b as int);
    HLS {
        hue_num: hue_num_of(r, g, b) as i32,
        hue_den: hue_den_of(r, g, b) as u32,
        lightness: lightness_of(r, g, b) as u32,
        saturation_num: saturation_num_of(r, g, b) as u32,
        saturation_den: saturation_den_of(r, g, b) as u32,
    }
}

/// Lightness and saturation lie in `[0, 100]`. On a tie for the largest
/// channel the hue is zero; otherwise it lies in `(-60, 300)` degrees, and in
/// `[0, 360)` unless red is the largest channel and blue exceeds green.
pub proof fn lemma_hls_ranges(r: u8, g: u8, b: u8)
    ensures
        ({
            let h = hls_of(r, g, b);
            let (r, g, b) = (r as int, g as int, b as int);
            &&& 0 <= h.lightness <= 100
            &&& h.saturation_den > 0
            &&& 0 <= h.saturation_num <= 100 * h.saturation_den
            &&& h.hue_den > 0
            &&& !has_strict_max(r, g, b) ==> h.hue_num == 0
            &&& has_strict_max(r, g, b) ==> -60 * h.hue_den < h.hue_num < 300 * h.hue_den
            &&& has_strict_max(r, g, b) && !(r > g && r > b && b > g) ==> 0 <= h.hue_num < 360
                * h.hue_den
        }),
{
}

impl HLS {
    pub fn new(r: u8, g: u8, b: u8) -> (h: HLS)
        ensures
            h == hls_of(r, g, b),
    {
        let mx: u8 = if r >= g && r >= b {
            r
        } else if g >= b {
            g
        } else {
            b
        };
        let mn: u8 = if r <= g && r <= b {
            r
        } else if g <= b {
            g
        } else {
            b
        };
        let d: u8 = mx - mn;
        let sum: u32 = mx as u32 + mn as u32;

        let lightness: u32 = (20 * sum + 51) / 102;

        let saturation_num: u32 = 100 * d as u32;
        let saturation_den: u32 = if mx == mn {
            1
        } else if sum > 255 {
            510 - sum
        } else {
            sum
        };

        let (ri, gi, bi, di) = (r as i32, g as i32, b as i32, d as i32);
        let (hue_num, hue_den): (i32, u32) = if r > g && r > b {
            (60 * (gi - bi), d as u32)
        } else if g > r && g > b {
            (60 * (2 * di + bi - ri), d as u32)
        } else if b > g && b > r {
            (60 * (4 * di + ri - gi), d as u32)
        } else {
            (0, 1)
        };

        HLS { hue_num, hue_den, lightness, saturation_num, saturation_den }
    }
}

impl RGB {
    /// The colour's hue, lightness and saturation.
    pub fn to_hls(&self) -> (h: HLS)
        ensures
            h == hls_of(self.r, self.g, self.b),
    {
        HLS::new(self.r, self.g, self.b)
    }
}

} // verus!
