//! The escape-time evaluator.
//!
//! Per pixel, the evaluator iterates `z <- z*z + c` from `z = (0,0)` and
//! reports either `Escaped(k)` — the count of completed iterations before
//! the one whose result first exceeded the escape threshold — or `Bounded`
//! when the whole iteration budget passes without an escape. The escape
//! test compares squared magnitudes, which is exact in fixed-point
//! arithmetic and needs no square root.

use vstd::prelude::*;
use crate::fixed::{FP_SCALE, FP_LIMIT, COORD_LIMIT, fp_mul};
use crate::complex::{Complex, mag_sq_spec};

verus! {

/// Largest escape radius accepted, in whole units: keeps every iterate
/// that is still below the threshold within the multiplication range.
pub const RADIUS_MAX: u32 = 64;

/// Largest iteration budget accepted (2^30): fits `usize` on 32-bit
/// targets and keeps the color arithmetic comfortably inside `u64`.
pub const BUDGET_MAX: usize = 1073741824;

/// How much one shell command raises or lowers the iteration budget.
pub const BUDGET_STEP: usize = 200;

/// The outcome of evaluating one point.
#[derive(Clone, Copy, Debug, PartialEq, Eq, Structural)]
pub enum Escape {
    /// The iterate exceeded the escape threshold; the payload is the
    /// number of completed iterations before the escaping one.
    Escaped(usize),
    /// The iteration budget ran out without an escape.
    Bounded,
}

/// The iterate after `n` steps of `z <- z*z + c` from the origin, over
/// fixed-point component pairs.
pub open spec fn z_at(cr: int, ci: int, n: nat) -> (int, int)
    decreases n,
{
    if n == 0 {
        (0int, 0int)
    } else {
        let p = z_at(cr, ci, (n - 1) as nat);
        (fp_mul(p.0, p.0) - fp_mul(p.1, p.1) + cr, fp_mul(p.0, p.1) + fp_mul(p.1, p.0) + ci)
    }
}

/// The squared escape threshold for a whole-unit radius: a point whose
/// squared magnitude exceeds this has left the disk of that radius.
pub open spec fn threshold_spec(radius: int) -> int {
    (radius * FP_SCALE) * (radius * FP_SCALE)
}

/// Scans onward from index `k`: the smallest index below `budget` whose
/// iterate, one step later, exceeds the threshold; `None` when no
/// iterate within the budget does.
pub open spec fn first_escape_from(cr: int, ci: int, thresh: int, budget: int, k: int) -> Option<
    int,
>
    decreases budget - k,
{
    if k < 0 || k >= budget {
        None
    } else if mag_sq_spec(z_at(cr, ci, (k + 1) as nat).0, z_at(cr, ci, (k + 1) as nat).1)
        > thresh {
        Some(k)
    } else {
        first_escape_from(cr, ci, thresh, budget, k + 1)
    }
}

/// The first iteration index at which the point escapes, if any does
/// within the budget.
pub open spec fn first_escape(cr: int, ci: int, thresh: int, budget: int) -> Option<int> {
    first_escape_from(cr, ci, thresh, budget, 0)
}

/// From a squared-magnitude bound, bounds on each component.
proof fn lemma_component_bound(r: int, i: int, t: int)
    requires
        t >= 0,
        r * r + i * i <= t * t,
    ensures
        -t <= r <= t,
        -t <= i <= t,
{
    assert(-t <= r <= t && -t <= i <= t) by (nonlinear_arith)
        requires
            t >= 0,
            r * r + i * i <= t * t,
    ;
}

/// Runs the escape map on one point until it escapes the disk of the
/// given radius or the budget runs out.
pub fn escape_time(c: Complex, budget: usize, radius: u32) -> (e: Escape)
    requires
        -COORD_LIMIT <= c.r <= COORD_LIMIT,
        -COORD_LIMIT <= c.i <= COORD_LIMIT,
        1 <= budget <= BUDGET_MAX,
        1 <= radius <= RADIUS_MAX,
    ensures
        match e {
            Escape::Escaped(k) => k < budget && first_escape(
                c.r as int,
                c.i as int,
                threshold_spec(radius as int),
                budget as int,
            ) == Some(k as int),
            Escape::Bounded => first_escape(
                c.r as int,
                c.i as int,
                threshold_spec(radius as int),
                budget as int,
            ) is None,
        },
{
    let t: i64 = (radius as i64) * FP_SCALE;
    proof {
        assert(t <= FP_LIMIT);
        assert(0 <= t * t <= FP_LIMIT * FP_LIMIT) by (nonlinear_arith)
            requires
                0 <= t <= FP_LIMIT,
        ;
    }
    let thresh: i64 = t * t;
    let mut z = Complex { r: 0, i: 0 };
    let mut k: usize = 0;
    while k < budget
        invariant
            0 <= k <= budget,
            1 <= budget <= BUDGET_MAX,
            1 <= radius <= RADIUS_MAX,
            -COORD_LIMIT <= c.r <= COORD_LIMIT,
            -COORD_LIMIT <= c.i <= COORD_LIMIT,
            t == radius * FP_SCALE,
            thresh == threshold_spec(radius as int),
            0 <= thresh,
            (z.r as int, z.i as int) == z_at(c.r as int, c.i as int, k as nat),
            mag_sq_spec(z.r as int, z.i as int) <= thresh,
            first_escape(c.r as int, c.i as int, thresh as int, budget as int)
                == first_escape_from(c.r as int, c.i as int, thresh as int, budget as int, k as int),
        decreases budget - k,
    {
        proof {
            lemma_component_bound(z.r as int, z.i as int, t as int);
        }
        let zz = z.mul(z);
        let z_next = zz.add(c);
        let m = z_next.mag_sq();
        proof {
            assert((z_next.r as int, z_next.i as int) == z_at(
                c.r as int,
                c.i as int,
                k as nat + 1,
            ));
        }
        if m > thresh {
            proof {
                assert(first_escape_from(
                    c.r as int,
                    c.i as int,
                    thresh as int,
                    budget as int,
                    k as int,
                ) == Some(k as int));
            }
            return Escape::Escaped(k);
        }
        proof {
            assert(first_escape_from(c.r as int, c.i as int, thresh as int, budget as int, k as int)
                == first_escape_from(
                c.r as int,
                c.i as int,
                thresh as int,
                budget as int,
                k as int + 1,
            ));
        }
        z = z_next;
        k = k + 1;
    }
    proof {
        assert(first_escape_from(c.r as int, c.i as int, thresh as int, budget as int, k as int)
            is None);
    }
    Escape::Bounded
}

/// What a found escape index means, for any suffix of the scan.
proof fn lemma_first_escape_from_found(cr: int, ci: int, thresh: int, budget: int, k0: int, k: int)
    requires
        0 <= k0,
        first_escape_from(cr, ci, thresh, budget, k0) == Some(k),
    ensures
        k0 <= k < budget,
        mag_sq_spec(z_at(cr, ci, (k + 1) as nat).0, z_at(cr, ci, (k + 1) as nat).1) > thresh,
        forall|j: int|
            k0 <= j < k ==> mag_sq_spec(
                #[trigger] z_at(cr, ci, (j + 1) as nat).0,
                z_at(cr, ci, (j + 1) as nat).1,
            ) <= thresh,
    decreases budget - k0,
{
    if k0 < budget && !(mag_sq_spec(z_at(cr, ci, (k0 + 1) as nat).0, z_at(cr, ci, (k0 + 1) as nat).1)
        > thresh) {
        lemma_first_escape_from_found(cr, ci, thresh, budget, k0 + 1, k);
    }
}

/// `Escaped(k)` reports the first exceedance: every iterate before the
/// `k + 1`st stayed within the threshold, and the `k + 1`st exceeded it
/// — `k` counts the completed iterations before the escaping one.
pub proof fn lemma_escape_index_is_first(cr: int, ci: int, thresh: int, budget: int, k: int)
    requires
        first_escape(cr, ci, thresh, budget) == Some(k),
    ensures
        0 <= k < budget,
        mag_sq_spec(z_at(cr, ci, (k + 1) as nat).0, z_at(cr, ci, (k + 1) as nat).1) > thresh,
        forall|j: int|
            0 <= j < k ==> mag_sq_spec(
                #[trigger] z_at(cr, ci, (j + 1) as nat).0,
                z_at(cr, ci, (j + 1) as nat).1,
            ) <= thresh,
{
    lemma_first_escape_from_found(cr, ci, thresh, budget, 0, k);
}

/// What a fruitless scan means, for any suffix of it.
proof fn lemma_first_escape_from_none(cr: int, ci: int, thresh: int, budget: int, k0: int)
    requires
        0 <= k0,
        first_escape_from(cr, ci, thresh, budget, k0) is None,
    ensures
        forall|j: int|
            k0 <= j < budget ==> mag_sq_spec(
                #[trigger] z_at(cr, ci, (j + 1) as nat).0,
                z_at(cr, ci, (j + 1) as nat).1,
            ) <= thresh,
    decreases budget - k0,
{
    if k0 < budget {
        lemma_first_escape_from_none(cr, ci, thresh, budget, k0 + 1);
    }
}

/// `Bounded` means what it says: within the whole budget, no iterate
/// ever exceeded the threshold.
pub proof fn lemma_bounded_never_exceeds(cr: int, ci: int, thresh: int, budget: int)
    requires
        first_escape(cr, ci, thresh, budget) is None,
    ensures
        forall|j: int|
            0 <= j < budget ==> mag_sq_spec(
                #[trigger] z_at(cr, ci, (j + 1) as nat).0,
                z_at(cr, ci, (j + 1) as nat).1,
            ) <= thresh,
{
    lemma_first_escape_from_none(cr, ci, thresh, budget, 0);
}

/// Iterating from the origin never leaves the origin.
proof fn lemma_z_at_origin(n: nat)
    ensures
        z_at(0, 0, n) == (0int, 0int),
    decreases n,
{
    if n > 0 {
        lemma_z_at_origin((n - 1) as nat);
    }
}

/// No suffix of the scan finds an escape for the origin.
proof fn lemma_origin_no_escape_from(thresh: int, budget: int, k: int)
    requires
        thresh >= 0,
    ensures
        first_escape_from(0, 0, thresh, budget, k) is None,
    decreases budget - k,
{
    if 0 <= k < budget {
        lemma_z_at_origin((k + 1) as nat);
        lemma_origin_no_escape_from(thresh, budget, k + 1);
    }
}

/// The origin belongs to the set: evaluating `c = (0,0)` reports
/// `Bounded` for every budget, because every iterate stays at the
/// origin and the threshold is never exceeded.
pub proof fn lemma_origin_bounded(thresh: int, budget: int)
    requires
        thresh >= 0,
    ensures
        first_escape(0, 0, thresh, budget) is None,
{
    lemma_origin_no_escape_from(thresh, budget, 0);
}

/// A point that already lies beyond the escape threshold escapes at
/// iteration 0: the first iterate of the map is the point itself, so
/// the very first escape test fires, whatever the budget.
pub proof fn lemma_far_point_escapes(cr: int, ci: int, thresh: int, budget: int)
    requires
        budget >= 1,
        mag_sq_spec(cr, ci) > thresh,
    ensures
        first_escape(cr, ci, thresh, budget) == Some(0int),
{
    assert(z_at(cr, ci, 0) == (0int, 0int));
    assert(z_at(cr, ci, 1) == (cr, ci));
}

/// Raises the iteration budget by one step, saturating at `BUDGET_MAX`.
pub fn increase_budget(budget: usize) -> (b: usize)
    requires
        1 <= budget <= BUDGET_MAX,
    ensures
        b == if budget + BUDGET_STEP <= BUDGET_MAX {
            budget + BUDGET_STEP
        } else {
            BUDGET_MAX as int
        },
        1 <= b <= BUDGET_MAX,
{
    if budget <= BUDGET_MAX - BUDGET_STEP {
        budget + BUDGET_STEP
    } else {
        BUDGET_MAX
    }
}

/// Lowers the iteration budget by one step, clamped to stay at least 1:
/// repeated decreases must never wrap below a budget of one iteration.
pub fn decrease_budget(budget: usize) -> (b: usize)
    requires
        1 <= budget <= BUDGET_MAX,
    ensures
        b == if budget - BUDGET_STEP >= 1 {
            budget - BUDGET_STEP
        } else {
            1int
        },
        1 <= b <= BUDGET_MAX,
{
    if budget > BUDGET_STEP {
        budget - BUDGET_STEP
    } else {
        1
    }
}

} // verus!
