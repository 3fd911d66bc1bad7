//! The complex arithmetic unit: a pair (real, imaginary) of fixed-point
//! scalars, with addition, subtraction, the complex product, and the
//! squared magnitude. All operations are pure and produce new values.

use vstd::prelude::*;
use crate::fixed::{FP_LIMIT, FP_PRODUCT_LIMIT, fp_mul, mul_fp};

verus! {

/// Bound on the magnitude of a component accepted by `mag_sq` (2^30):
/// wide enough to hold one iterate of the escape map before its escape
/// test, yet small enough that the sum of the two squares fits an `i64`.
pub const MAG_LIMIT: i64 = 1073741824;

/// A complex value over fixed-point scalars.
#[derive(Clone, Copy, Debug, PartialEq, Eq, Structural)]
pub struct Complex {
    pub r: i64,
    pub i: i64,
}

/// The squared magnitude of a component pair, in squared fixed-point
/// units: comparing it against a squared threshold is exact, where the
/// magnitude itself would need a square root.
pub open spec fn mag_sq_spec(r: int, i: int) -> int {
    r * r + i * i
}

impl Complex {
    /// Both components within the multiplication operand range.
    pub open spec fn in_mul_range(self) -> bool {
        -FP_LIMIT <= self.r <= FP_LIMIT && -FP_LIMIT <= self.i <= FP_LIMIT
    }

    /// Componentwise sum.
    pub fn add(self, c: Complex) -> (s: Complex)
        requires
            i64::MIN <= self.r + c.r <= i64::MAX,
            i64::MIN <= self.i + c.i <= i64::MAX,
        ensures
            s.r == self.r + c.r,
            s.i == self.i + c.i,
    {
        Complex { r: self.r + c.r, i: self.i + c.i }
    }

    /// Componentwise difference.
    pub fn sub(self, c: Complex) -> (s: Complex)
        requires
            i64::MIN <= self.r - c.r <= i64::MAX,
            i64::MIN <= self.i - c.i <= i64::MAX,
        ensures
            s.r == self.r - c.r,
            s.i == self.i - c.i,
    {
        Complex { r: self.r - c.r, i: self.i - c.i }
    }

    /// The complex product (not the componentwise product):
    /// `(a + bi)(c + di) = (ac - bd) + (ad + bc)i`.
    pub fn mul(self, c: Complex) -> (p: Complex)
        requires
            self.in_mul_range(),
            c.in_mul_range(),
        ensures
            p.r == fp_mul(self.r as int, c.r as int) - fp_mul(self.i as int, c.i as int),
            p.i == fp_mul(self.r as int, c.i as int) + fp_mul(self.i as int, c.r as int),
            -2 * FP_PRODUCT_LIMIT <= p.r <= 2 * FP_PRODUCT_LIMIT,
            -2 * FP_PRODUCT_LIMIT <= p.i <= 2 * FP_PRODUCT_LIMIT,
    {
        let rr: i64 = mul_fp(self.r, c.r);
        let ii: i64 = mul_fp(self.i, c.i);
        let ri: i64 = mul_fp(self.r, c.i);
        let ir: i64 = mul_fp(self.i, c.r);
        Complex { r: rr - ii, i: ri + ir }
    }

    /// The squared magnitude, in squared fixed-point units.
    pub fn mag_sq(self) -> (m: i64)
        requires
            -MAG_LIMIT <= self.r <= MAG_LIMIT,
            -MAG_LIMIT <= self.i <= MAG_LIMIT,
        ensures
            m == mag_sq_spec(self.r as int, self.i as int),
            m >= 0,
    {
        proof {
            assert(0 <= self.r * self.r <= MAG_LIMIT * MAG_LIMIT
                && 0 <= self.i * self.i <= MAG_LIMIT * MAG_LIMIT) by (nonlinear_arith)
                requires
                    -MAG_LIMIT <= self.r <= MAG_LIMIT,
                    -MAG_LIMIT <= self.i <= MAG_LIMIT,
            ;
        }
        self.r * self.r + self.i * self.i
    }
}

} // verus!
