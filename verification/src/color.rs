//! The color mapper: turns an escape result and the iteration budget
//! into an RGBA color.
//!
//! A point that stayed bounded gets opaque white, visually distinct from
//! the dark colors that small escape fractions produce in either mode.
//! An escaped point is colored from its escape fraction `k / budget`,
//! either as a grayscale ramp or as a hue rotation through the
//! fully-saturated, full-value cylinder of the HSV model: the hue angle
//! is `k / budget` of a full turn, split into six sectors with a linear
//! ramp inside each. All arithmetic is integer arithmetic over the exact
//! fraction `k / budget`.

use vstd::prelude::*;
use crate::escape::{Escape, BUDGET_MAX};
use vstd::arithmetic::div_mod::{lemma_multiply_divide_lt, lemma_div_pos_is_pos,
    lemma_mod_pos_bound, lemma_fundamental_div_mod};

verus! {

/// An RGBA color, one byte per channel.
#[derive(Clone, Copy, Debug, PartialEq, Eq, Structural)]
pub struct Color {
    pub r: u8,
    pub g: u8,
    pub b: u8,
    pub a: u8,
}

/// Which ramp the color mapper applies to escaped points.
#[derive(Clone, Copy, Debug, PartialEq, Eq, Structural)]
pub enum ColorMode {
    /// `k / budget` of full brightness on all three channels.
    Grayscale,
    /// A hue rotation: `k / budget` of a full turn around the HSV
    /// cylinder at full saturation and value.
    Hue,
}

/// The color of a point that never escaped: opaque white.
pub open spec fn bounded_color_spec() -> Color {
    Color { r: 255, g: 255, b: 255, a: 255 }
}

/// The grayscale brightness of escape count `k` under `budget`:
/// the fraction `k / budget` of 255, rounded down.
pub open spec fn gray_level(k: int, budget: int) -> int {
    (k * 255) / budget
}

/// Which sixth of the full hue turn the angle `k / budget` falls in.
pub open spec fn hue_sector(k: int, budget: int) -> int {
    (6 * k) / budget
}

/// How far into its sector the hue angle lies, as a numerator over the
/// common denominator `budget`.
pub open spec fn hue_frac(k: int, budget: int) -> int {
    (6 * k) % budget
}

/// The rising channel value within a hue sector: the in-sector fraction
/// of 255, rounded down.
pub open spec fn hue_ramp(k: int, budget: int) -> int {
    (hue_frac(k, budget) * 255) / budget
}

/// The hue-rotation color of escape count `k` under `budget`: red at the
/// start of the turn, through yellow, green, cyan, blue and magenta, one
/// channel ramping per sector.
pub open spec fn hue_color_spec(k: int, budget: int) -> Color {
    let s = hue_sector(k, budget);
    let up = hue_ramp(k, budget) as u8;
    let down = (255 - hue_ramp(k, budget)) as u8;
    if s == 0 {
        Color { r: 255, g: up, b: 0, a: 255 }
    } else if s == 1 {
        Color { r: down, g: 255, b: 0, a: 255 }
    } else if s == 2 {
        Color { r: 0, g: 255, b: up, a: 255 }
    } else if s == 3 {
        Color { r: 0, g: down, b: 255, a: 255 }
    } else if s == 4 {
        Color { r: up, g: 0, b: 255, a: 255 }
    } else {
        Color { r: 255, g: 0, b: down, a: 255 }
    }
}

/// The grayscale color of escape count `k` under `budget`.
pub open spec fn gray_color_spec(k: int, budget: int) -> Color {
    let v = gray_level(k, budget) as u8;
    Color { r: v, g: v, b: v, a: 255 }
}

/// The color of an escape outcome, given as the optional escape count.
pub open spec fn escape_color_spec(e: Option<int>, budget: int, mode: ColorMode) -> Color {
    match e {
        Option::None => bounded_color_spec(),
        Option::Some(k) => match mode {
            ColorMode::Grayscale => gray_color_spec(k, budget),
            ColorMode::Hue => hue_color_spec(k, budget),
        },
    }
}

/// An escape outcome as the optional escape count it carries.
pub open spec fn escape_count(e: Escape) -> Option<int> {
    match e {
        Escape::Escaped(k) => Option::Some(k as int),
        Escape::Bounded => Option::None,
    }
}

/// A nonnegative numerator strictly below `bound` times the denominator
/// divides to a quotient strictly below `bound`.
proof fn lemma_div_below(num: int, d: int, bound: int)
    requires
        0 <= num,
        0 < d,
        num < d * bound,
    ensures
        0 <= num / d < bound,
{
    lemma_div_pos_is_pos(num, d);
    lemma_multiply_divide_lt(num, d, bound);
}

/// Maps one escape outcome to its color.
pub fn color_of(e: Escape, budget: usize, mode: ColorMode) -> (col: Color)
    requires
        1 <= budget <= BUDGET_MAX,
        e matches Escape::Escaped(k) ==> k < budget,
    ensures
        col == escape_color_spec(escape_count(e), budget as int, mode),
{
    match e {
        Escape::Bounded => Color { r: 255, g: 255, b: 255, a: 255 },
        Escape::Escaped(k) => {
            let b64: u64 = budget as u64;
            match mode {
                ColorMode::Grayscale => {
                    proof {
                        assert(k * 255 < budget * 255);
                        lemma_div_below(k as int * 255, budget as int, 255);
                    }
                    let v: u64 = ((k as u64) * 255) / b64;
                    Color { r: v as u8, g: v as u8, b: v as u8, a: 255 }
                },
                ColorMode::Hue => {
                    proof {
                        assert(6 * (k as int) < budget * 6);
                        lemma_div_below(6 * (k as int), budget as int, 6);
                        lemma_mod_pos_bound(6 * (k as int), budget as int);
                    }
                    let s: u64 = (6 * (k as u64)) / b64;
                    let m: u64 = (6 * (k as u64)) % b64;
                    proof {
                        assert(m * 255 < budget * 255);
                        lemma_div_below(m as int * 255, budget as int, 255);
                    }
                    let up64: u64 = (m * 255) / b64;
                    let up: u8 = up64 as u8;
                    let down: u8 = 255 - up;
                    if s == 0 {
                        Color { r: 255, g: up, b: 0, a: 255 }
                    } else if s == 1 {
                        Color { r: down, g: 255, b: 0, a: 255 }
                    } else if s == 2 {
                        Color { r: 0, g: 255, b: up, a: 255 }
                    } else if s == 3 {
                        Color { r: 0, g: down, b: 255, a: 255 }
                    } else if s == 4 {
                        Color { r: up, g: 0, b: 255, a: 255 }
                    } else {
                        Color { r: 255, g: 0, b: down, a: 255 }
                    }
                },
            }
        },
    }
}

/// The hue ramp is strictly monotone in the escape count: the hue angle
/// is `k / budget` of a full turn, held as the sector index and the
/// in-sector numerator over the common denominator `budget`. Composed
/// back over that denominator, the angle of a larger escape count is
/// strictly larger, so the gradient of a fixed budget is deterministic
/// and strictly ordered.
pub proof fn lemma_hue_strictly_increasing(k1: int, k2: int, budget: int)
    requires
        0 <= k1 < k2 < budget,
    ensures
        hue_sector(k1, budget) * budget + hue_frac(k1, budget) < hue_sector(k2, budget) * budget
            + hue_frac(k2, budget),
{
    lemma_fundamental_div_mod(6 * k1, budget);
    lemma_fundamental_div_mod(6 * k2, budget);
    assert(hue_sector(k1, budget) * budget == budget * hue_sector(k1, budget)) by (nonlinear_arith);
    assert(hue_sector(k2, budget) * budget == budget * hue_sector(k2, budget)) by (nonlinear_arith);
}

} // verus!
