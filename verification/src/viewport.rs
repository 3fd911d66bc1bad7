//! The viewport mapper and the viewport itself.
//!
//! A viewport is a rectangle in world space, `(min_x, max_x, min_y, max_y)`
//! in fixed-point coordinates with `min < max` on each axis. The mapper is
//! a pure linear rescale from the pixel index range `[0, extent)` of one
//! axis onto the world range `[lo, hi]` of that axis. The grid's aspect
//! ratio is deliberately not matched against the viewport's: a mismatch
//! stretches the image rather than failing.
//!
//! The pan and zoom operations are the state transitions a driving shell
//! performs between frames; each moves or scales the rectangle by a tenth
//! of its current span.

use vstd::prelude::*;
use crate::fixed::COORD_LIMIT;
use vstd::arithmetic::div_mod::{lemma_div_is_ordered, lemma_div_by_multiple, lemma_div_of0,
    lemma_fundamental_div_mod, lemma_div_pos_is_pos, lemma_multiply_divide_lt};

verus! {

/// Largest pixel extent (width or height) the pipeline accepts, 2^15.
/// Keeps `width * height` and every mapping product comfortably inside
/// the machine integer ranges, on 32-bit targets too.
pub const EXTENT_MAX: usize = 32768;

/// Where pixel index `p` of an axis with `extent` pixels lands in the
/// world range `[lo, hi]`: a linear rescale, rounded down. Pixel 0 lands
/// exactly on `lo`; the exclusive pixel bound `extent` lands exactly on
/// `hi`. With `hi < lo` the mapping would silently invert the axis, which
/// is why callers keep `lo < hi`.
pub open spec fn map_axis_spec(p: int, extent: int, lo: int, hi: int) -> int {
    (p * (hi - lo)) / extent + lo
}

/// Maps pixel index `p` on an axis of `extent` pixels into `[lo, hi]`.
pub fn map_axis(p: usize, extent: usize, lo: i64, hi: i64) -> (w: i64)
    requires
        0 < extent <= EXTENT_MAX,
        p <= extent,
        -COORD_LIMIT <= lo < hi <= COORD_LIMIT,
    ensures
        w == map_axis_spec(p as int, extent as int, lo as int, hi as int),
        lo <= w <= hi,
        p == 0 ==> w == lo,
        p < extent ==> w < hi,
        p == extent ==> w == hi,
{
    let span: i64 = hi - lo;
    proof {
        assert(p * span <= extent * span && 0 <= p * span
            && extent * span == span * extent
            && p * span <= EXTENT_MAX * 2 * COORD_LIMIT) by (nonlinear_arith)
            requires
                0 <= p <= extent <= EXTENT_MAX,
                0 < span <= 2 * COORD_LIMIT,
        ;
        lemma_div_is_ordered(p as int * span, span * extent, extent as int);
        lemma_div_by_multiple(span as int, extent as int);
        lemma_div_pos_is_pos(p as int * span, extent as int);
        if p == 0 {
            lemma_div_of0(extent as int);
        }
        if p < extent {
            assert(p * span < extent * span) by (nonlinear_arith)
                requires
                    0 <= p < extent,
                    0 < span,
            ;
            lemma_multiply_divide_lt(p as int * span, extent as int, span as int);
        }
    }
    let num: u64 = (p as u64) * (span as u64);
    let q: u64 = num / (extent as u64);
    lo + (q as i64)
}

/// A rectangle of world space, in fixed-point coordinates.
#[derive(Clone, Copy, Debug, PartialEq, Eq, Structural)]
pub struct Viewport {
    pub min_x: i64,
    pub max_x: i64,
    pub min_y: i64,
    pub max_y: i64,
}

/// The canonical default view of the set, about (-2.0, 0.47) by
/// (-1.12, 1.12) in world units.
pub const DEFAULT_MIN_X: i64 = -131072;

pub const DEFAULT_MAX_X: i64 = 30802;

pub const DEFAULT_MIN_Y: i64 = -73400;

pub const DEFAULT_MAX_Y: i64 = 73400;

/// A tenth of the span `[lo, hi)`: the distance one pan step moves, and
/// the amount one zoom step takes off or adds to each end of an axis.
pub open spec fn step_spec(lo: int, hi: int) -> int {
    (hi - lo) / 10
}

/// One tenth of an axis span, rounded down.
pub fn axis_step(lo: i64, hi: i64) -> (s: i64)
    requires
        -COORD_LIMIT <= lo < hi <= COORD_LIMIT,
    ensures
        s == step_spec(lo as int, hi as int),
        0 <= s,
        10 * s <= hi - lo,
{
    proof {
        lemma_fundamental_div_mod(hi - lo, 10int);
        lemma_div_pos_is_pos(hi - lo, 10int);
    }
    (((hi - lo) as u64) / 10u64) as i64
}

impl Viewport {
    /// Well-formed: each axis is properly ordered and within the
    /// coordinate range the pipeline accepts.
    pub open spec fn wf(self) -> bool {
        &&& -COORD_LIMIT <= self.min_x < self.max_x <= COORD_LIMIT
        &&& -COORD_LIMIT <= self.min_y < self.max_y <= COORD_LIMIT
    }

    /// The canonical default viewport.
    pub fn reset() -> (v: Viewport)
        ensures
            v == (Viewport {
                min_x: DEFAULT_MIN_X,
                max_x: DEFAULT_MAX_X,
                min_y: DEFAULT_MIN_Y,
                max_y: DEFAULT_MAX_Y,
            }),
            v.wf(),
    {
        Viewport {
            min_x: DEFAULT_MIN_X,
            max_x: DEFAULT_MAX_X,
            min_y: DEFAULT_MIN_Y,
            max_y: DEFAULT_MAX_Y,
        }
    }

    /// Shifts the view one step toward smaller x.
    pub fn pan_left(self) -> (v: Viewport)
        requires
            self.wf(),
            self.min_x - step_spec(self.min_x as int, self.max_x as int) >= -COORD_LIMIT,
        ensures
            v.min_x == self.min_x - step_spec(self.min_x as int, self.max_x as int),
            v.max_x == self.max_x - step_spec(self.min_x as int, self.max_x as int),
            v.min_y == self.min_y,
            v.max_y == self.max_y,
            v.wf(),
    {
        let s: i64 = axis_step(self.min_x, self.max_x);
        Viewport { min_x: self.min_x - s, max_x: self.max_x - s, ..self }
    }

    /// Shifts the view one step toward larger x.
    pub fn pan_right(self) -> (v: Viewport)
        requires
            self.wf(),
            self.max_x + step_spec(self.min_x as int, self.max_x as int) <= COORD_LIMIT,
        ensures
            v.min_x == self.min_x + step_spec(self.min_x as int, self.max_x as int),
            v.max_x == self.max_x + step_spec(self.min_x as int, self.max_x as int),
            v.min_y == self.min_y,
            v.max_y == self.max_y,
            v.wf(),
    {
        let s: i64 = axis_step(self.min_x, self.max_x);
        Viewport { min_x: self.min_x + s, max_x: self.max_x + s, ..self }
    }

    /// Shifts the view one step toward smaller y.
    pub fn pan_up(self) -> (v: Viewport)
        requires
            self.wf(),
            self.min_y - step_spec(self.min_y as int, self.max_y as int) >= -COORD_LIMIT,
        ensures
            v.min_y == self.min_y - step_spec(self.min_y as int, self.max_y as int),
            v.max_y == self.max_y - step_spec(self.min_y as int, self.max_y as int),
            v.min_x == self.min_x,
            v.max_x == self.max_x,
            v.wf(),
    {
        let s: i64 = axis_step(self.min_y, self.max_y);
        Viewport { min_y: self.min_y - s, max_y: self.max_y - s, ..self }
    }

    /// Shifts the view one step toward larger y.
    pub fn pan_down(self) -> (v: Viewport)
        requires
            self.wf(),
            self.max_y + step_spec(self.min_y as int, self.max_y as int) <= COORD_LIMIT,
        ensures
            v.min_y == self.min_y + step_spec(self.min_y as int, self.max_y as int),
            v.max_y == self.max_y + step_spec(self.min_y as int, self.max_y as int),
            v.min_x == self.min_x,
            v.max_x == self.max_x,
            v.wf(),
    {
        let s: i64 = axis_step(self.min_y, self.max_y);
        Viewport { min_y: self.min_y + s, max_y: self.max_y + s, ..self }
    }

    /// Shrinks both axes symmetrically by one step per end. Needs no
    /// headroom: the rectangle only gets smaller, and a span too small
    /// to have a tenth is left as it is.
    pub fn zoom_in(self) -> (v: Viewport)
        requires
            self.wf(),
        ensures
            v.min_x == self.min_x + step_spec(self.min_x as int, self.max_x as int),
            v.max_x == self.max_x - step_spec(self.min_x as int, self.max_x as int),
            v.min_y == self.min_y + step_spec(self.min_y as int, self.max_y as int),
            v.max_y == self.max_y - step_spec(self.min_y as int, self.max_y as int),
            v.wf(),
    {
        let sx: i64 = axis_step(self.min_x, self.max_x);
        let sy: i64 = axis_step(self.min_y, self.max_y);
        Viewport {
            min_x: self.min_x + sx,
            max_x: self.max_x - sx,
            min_y: self.min_y + sy,
            max_y: self.max_y - sy,
        }
    }

    /// Grows both axes symmetrically by one step per end.
    pub fn zoom_out(self) -> (v: Viewport)
        requires
            self.wf(),
            self.min_x - step_spec(self.min_x as int, self.max_x as int) >= -COORD_LIMIT,
            self.max_x + step_spec(self.min_x as int, self.max_x as int) <= COORD_LIMIT,
            self.min_y - step_spec(self.min_y as int, self.max_y as int) >= -COORD_LIMIT,
            self.max_y + step_spec(self.min_y as int, self.max_y as int) <= COORD_LIMIT,
        ensures
            v.min_x == self.min_x - step_spec(self.min_x as int, self.max_x as int),
            v.max_x == self.max_x + step_spec(self.min_x as int, self.max_x as int),
            v.min_y == self.min_y - step_spec(self.min_y as int, self.max_y as int),
            v.max_y == self.max_y + step_spec(self.min_y as int, self.max_y as int),
            v.wf(),
    {
        let sx: i64 = axis_step(self.min_x, self.max_x);
        let sy: i64 = axis_step(self.min_y, self.max_y);
        Viewport {
            min_x: self.min_x - sx,
            max_x: self.max_x + sx,
            min_y: self.min_y - sy,
            max_y: self.max_y + sy,
        }
    }
}

} // verus!
