//! The frame synthesizer: drives the viewport mapper, the escape-time
//! evaluator and the color mapper over every pixel of a width x height
//! grid, producing a row-major pixel buffer, top row first.
//!
//! The buffer is a pure function of the grid size, the viewport, the
//! budget, the escape radius and the color mode: no pixel is skipped or
//! special-cased, and nothing carries over from one frame to the next.

use vstd::prelude::*;
use crate::fixed::COORD_LIMIT;
use crate::complex::Complex;
use crate::viewport::{map_axis, map_axis_spec, EXTENT_MAX};
use crate::escape::{escape_time, first_escape, threshold_spec, lemma_origin_bounded, BUDGET_MAX,
    RADIUS_MAX};
use crate::color::{color_of, escape_color_spec, escape_count, Color, ColorMode};
use vstd::arithmetic::div_mod::{lemma_multiply_divide_lt, lemma_div_pos_is_pos,
    lemma_mod_pos_bound, lemma_fundamental_div_mod};

verus! {

/// The default escape radius, in whole units.
pub const DEFAULT_RADIUS: u32 = 4;

/// The color of grid cell `(x, y)` of a frame: the cell's world
/// coordinate on each axis, the escape evaluation at that point, and
/// the color of the outcome.
pub open spec fn pixel_color_spec(
    x: int,
    y: int,
    width: int,
    height: int,
    min_x: int,
    max_x: int,
    min_y: int,
    max_y: int,
    budget: int,
    radius: int,
    mode: ColorMode,
) -> Color {
    let cx = map_axis_spec(x, width, min_x, max_x);
    let cy = map_axis_spec(y, height, min_y, max_y);
    escape_color_spec(first_escape(cx, cy, threshold_spec(radius), budget), budget, mode)
}

/// A cell of a finished row sits strictly below the next row's start.
proof fn lemma_row_major_below(yy: int, xx: int, y: int, width: int)
    requires
        0 <= xx < width,
        0 <= yy < y,
    ensures
        0 <= yy * width + xx < y * width,
{
    assert(0 <= yy * width + xx < y * width) by (nonlinear_arith)
        requires
            0 <= xx < width,
            0 <= yy < y,
    ;
}

/// Renders one frame with an explicit escape radius and color mode.
/// The buffer holds exactly `width * height` colors; the color at
/// row-major index `y * width + x` is that of grid cell `(x, y)`.
pub fn render_with(
    width: usize,
    height: usize,
    min_x: i64,
    max_x: i64,
    min_y: i64,
    max_y: i64,
    budget: usize,
    radius: u32,
    mode: ColorMode,
) -> (buf: Vec<Color>)
    requires
        0 < width <= EXTENT_MAX,
        0 < height <= EXTENT_MAX,
        -COORD_LIMIT <= min_x < max_x <= COORD_LIMIT,
        -COORD_LIMIT <= min_y < max_y <= COORD_LIMIT,
        1 <= budget <= BUDGET_MAX,
        1 <= radius <= RADIUS_MAX,
    ensures
        buf@.len() == width * height,
        forall|y: int, x: int|
            0 <= y < height && 0 <= x < width ==> buf@[y * width + x] == pixel_color_spec(
                x,
                y,
                width as int,
                height as int,
                min_x as int,
                max_x as int,
                min_y as int,
                max_y as int,
                budget as int,
                radius as int,
                mode,
            ),
{
    let mut buf: Vec<Color> = Vec::new();
    let mut y: usize = 0;
    while y < height
        invariant
            0 <= y <= height,
            0 < width <= EXTENT_MAX,
            0 < height <= EXTENT_MAX,
            -COORD_LIMIT <= min_x < max_x <= COORD_LIMIT,
            -COORD_LIMIT <= min_y < max_y <= COORD_LIMIT,
            1 <= budget <= BUDGET_MAX,
            1 <= radius <= RADIUS_MAX,
            buf@.len() == y * width,
            forall|yy: int, xx: int|
                0 <= yy < y && 0 <= xx < width ==> buf@[yy * width + xx] == pixel_color_spec(
                    xx,
                    yy,
                    width as int,
                    height as int,
                    min_x as int,
                    max_x as int,
                    min_y as int,
                    max_y as int,
                    budget as int,
                    radius as int,
                    mode,
                ),
        decreases height - y,
    {
        let cy: i64 = map_axis(y, height, min_y, max_y);
        let mut x: usize = 0;
        while x < width
            invariant
                0 <= x <= width,
                0 <= y < height,
                0 < width <= EXTENT_MAX,
                0 < height <= EXTENT_MAX,
                -COORD_LIMIT <= min_x < max_x <= COORD_LIMIT,
                -COORD_LIMIT <= min_y < max_y <= COORD_LIMIT,
                1 <= budget <= BUDGET_MAX,
                1 <= radius <= RADIUS_MAX,
                cy == map_axis_spec(y as int, height as int, min_y as int, max_y as int),
                -COORD_LIMIT <= cy <= COORD_LIMIT,
                buf@.len() == y * width + x,
                forall|yy: int, xx: int|
                    0 <= yy < y && 0 <= xx < width ==> buf@[yy * width + xx] == pixel_color_spec(
                        xx,
                        yy,
                        width as int,
                        height as int,
                        min_x as int,
                        max_x as int,
                        min_y as int,
                        max_y as int,
                        budget as int,
                        radius as int,
                        mode,
                    ),
                forall|xx: int|
                    0 <= xx < x ==> buf@[y * width + xx] == pixel_color_spec(
                        xx,
                        y as int,
                        width as int,
                        height as int,
                        min_x as int,
                        max_x as int,
                        min_y as int,
                        max_y as int,
                        budget as int,
                        radius as int,
                        mode,
                    ),
            decreases width - x,
        {
            let cx: i64 = map_axis(x, width, min_x, max_x);
            let c = Complex { r: cx, i: cy };
            let e = escape_time(c, budget, radius);
            let col = color_of(e, budget, mode);
            proof {
                assert(escape_count(e) == first_escape(
                    cx as int,
                    cy as int,
                    threshold_spec(radius as int),
                    budget as int,
                ));
                assert(col == pixel_color_spec(
                    x as int,
                    y as int,
                    width as int,
                    height as int,
                    min_x as int,
                    max_x as int,
                    min_y as int,
                    max_y as int,
                    budget as int,
                    radius as int,
                    mode,
                ));
                assert forall|yy: int, xx: int| 0 <= yy < y && 0 <= xx < width implies #[trigger] (
                yy * width + xx) < y * width + x by {
                    lemma_row_major_below(yy, xx, y as int, width as int);
                }
            }
            buf.push(col);
            x = x + 1;
        }
        proof {
            assert((y + 1) * width == y * width + width) by (nonlinear_arith);
        }
        y = y + 1;
    }
    proof {
        assert(height * width == width * height) by (nonlinear_arith);
    }
    buf
}

/// Renders one frame with the default escape radius and the hue ramp.
pub fn render(
    width: usize,
    height: usize,
    min_x: i64,
    max_x: i64,
    min_y: i64,
    max_y: i64,
    budget: usize,
) -> (buf: Vec<Color>)
    requires
        0 < width <= EXTENT_MAX,
        0 < height <= EXTENT_MAX,
        -COORD_LIMIT <= min_x < max_x <= COORD_LIMIT,
        -COORD_LIMIT <= min_y < max_y <= COORD_LIMIT,
        1 <= budget <= BUDGET_MAX,
    ensures
        buf@.len() == width * height,
        forall|y: int, x: int|
            0 <= y < height && 0 <= x < width ==> buf@[y * width + x] == pixel_color_spec(
                x,
                y,
                width as int,
                height as int,
                min_x as int,
                max_x as int,
                min_y as int,
                max_y as int,
                budget as int,
                DEFAULT_RADIUS as int,
                ColorMode::Hue,
            ),
{
    render_with(width, height, min_x, max_x, min_y, max_y, budget, DEFAULT_RADIUS, ColorMode::Hue)
}

/// A pixel whose world coordinate is the origin is always colored as
/// bounded, whatever the budget, radius and mode: the origin belongs to
/// the Mandelbrot set, and its pixel comes out opaque white wherever it
/// lies in the grid.
pub proof fn lemma_origin_pixel_bounded(
    x: int,
    y: int,
    width: int,
    height: int,
    min_x: int,
    max_x: int,
    min_y: int,
    max_y: int,
    budget: int,
    radius: int,
    mode: ColorMode,
)
    requires
        budget >= 1,
        radius >= 0,
        map_axis_spec(x, width, min_x, max_x) == 0,
        map_axis_spec(y, height, min_y, max_y) == 0,
    ensures
        pixel_color_spec(x, y, width, height, min_x, max_x, min_y, max_y, budget, radius, mode)
            == crate::color::bounded_color_spec(),
{
    assert(threshold_spec(radius) >= 0) by (nonlinear_arith)
        requires
            radius >= 0,
    ;
    lemma_origin_bounded(threshold_spec(radius), budget);
}

/// Rendering is a pure function of its arguments: two buffers that both
/// satisfy the frame contract for the same arguments are equal, element
/// for element — there is no hidden state a second call could observe.
pub proof fn lemma_render_deterministic(
    b1: Seq<Color>,
    b2: Seq<Color>,
    width: int,
    height: int,
    min_x: int,
    max_x: int,
    min_y: int,
    max_y: int,
    budget: int,
    radius: int,
    mode: ColorMode,
)
    requires
        0 < width,
        0 < height,
        b1.len() == width * height,
        b2.len() == width * height,
        forall|y: int, x: int|
            0 <= y < height && 0 <= x < width ==> b1[y * width + x] == pixel_color_spec(
                x,
                y,
                width,
                height,
                min_x,
                max_x,
                min_y,
                max_y,
                budget,
                radius,
                mode,
            ),
        forall|y: int, x: int|
            0 <= y < height && 0 <= x < width ==> b2[y * width + x] == pixel_color_spec(
                x,
                y,
                width,
                height,
                min_x,
                max_x,
                min_y,
                max_y,
                budget,
                radius,
                mode,
            ),
    ensures
        b1 == b2,
{
    assert forall|i: int| 0 <= i < b1.len() implies b1[i] == b2[i] by {
        let y = i / width;
        let x = i % width;
        lemma_fundamental_div_mod(i, width);
        lemma_mod_pos_bound(i, width);
        lemma_div_pos_is_pos(i, width);
        assert(i < width * height);
        lemma_multiply_divide_lt(i, width, height);
        assert(i == width * y + x);
        assert(y * width == width * y) by (nonlinear_arith);
        assert(i == y * width + x);
        assert(b1[y * width + x] == pixel_color_spec(
            x,
            y,
            width,
            height,
            min_x,
            max_x,
            min_y,
            max_y,
            budget,
            radius,
            mode,
        ));
        assert(b2[y * width + x] == pixel_color_spec(
            x,
            y,
            width,
            height,
            min_x,
            max_x,
            min_y,
            max_y,
            budget,
            radius,
            mode,
        ));
    }
    assert(b1 =~= b2);
}

} // verus!
