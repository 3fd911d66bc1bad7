//! Fixed-point scalars: `i64` values carrying 16 fractional bits.
//!
//! A world-space coordinate `x` is represented by the integer
//! `round(x * FP_SCALE)`. Addition and subtraction are the plain integer
//! operations; multiplication divides the double-scale product back down,
//! rounding toward zero. Everything is exact integer arithmetic, so there
//! are no rounding modes, NaNs or platform differences to account for.

use vstd::prelude::*;
use vstd::arithmetic::div_mod::lemma_div_is_ordered;

verus! {

/// One whole unit in fixed-point representation (2^16).
pub const FP_SCALE: i64 = 65536;

/// Largest magnitude a world coordinate handed to the pipeline may have:
/// 16 whole units. Viewport bounds stay within this range.
pub const COORD_LIMIT: i64 = 1048576;

/// Largest magnitude an operand of fixed-point multiplication may have:
/// 64 whole units (2^22). The escape radius is capped so that iterates
/// that are still being multiplied stay within this range.
pub const FP_LIMIT: i64 = 4194304;

/// Bound on the magnitude of a fixed-point product of two operands that
/// are within `FP_LIMIT`: `FP_LIMIT * FP_LIMIT / FP_SCALE` (2^28).
pub const FP_PRODUCT_LIMIT: i64 = 268435456;

/// The fixed-point product: the integer product scaled back down by
/// `FP_SCALE`, rounded toward zero. For operands that are whole multiples
/// of `FP_SCALE` the product is exact.
pub open spec fn fp_mul(a: int, b: int) -> int {
    if a * b >= 0 {
        (a * b) / (FP_SCALE as int)
    } else {
        -((-(a * b)) / (FP_SCALE as int))
    }
}

/// Fixed-point multiplication, rounding toward zero.
pub fn mul_fp(a: i64, b: i64) -> (r: i64)
    requires
        -FP_LIMIT <= a <= FP_LIMIT,
        -FP_LIMIT <= b <= FP_LIMIT,
    ensures
        r == fp_mul(a as int, b as int),
        -FP_PRODUCT_LIMIT <= r <= FP_PRODUCT_LIMIT,
{
    proof {
        assert(-(FP_LIMIT * FP_LIMIT) <= a * b <= FP_LIMIT * FP_LIMIT) by (nonlinear_arith)
            requires
                -FP_LIMIT <= a <= FP_LIMIT,
                -FP_LIMIT <= b <= FP_LIMIT,
        ;
    }
    let p: i64 = a * b;
    if p >= 0 {
        proof {
            lemma_div_is_ordered(p as int, FP_LIMIT * FP_LIMIT, FP_SCALE as int);
        }
        let q: u64 = (p as u64) / 65536u64;
        q as i64
    } else {
        proof {
            lemma_div_is_ordered(-(p as int), FP_LIMIT * FP_LIMIT, FP_SCALE as int);
        }
        let q: u64 = ((-p) as u64) / 65536u64;
        -(q as i64)
    }
}

} // verus!
