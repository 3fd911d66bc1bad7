use mandelbrot::color::{color_of, Color, ColorMode};
use mandelbrot::complex::Complex;
use mandelbrot::escape::{decrease_budget, escape_time, increase_budget, Escape, BUDGET_MAX};
use mandelbrot::fixed::{mul_fp, FP_SCALE};
use mandelbrot::ppm::ppm_bytes;
use mandelbrot::render::{render, render_with};
use mandelbrot::viewport::{map_axis, Viewport};

const S: i64 = FP_SCALE;

#[test]
fn complex_add_sub() {
    let a = Complex { r: 3 * S, i: -2 * S };
    let b = Complex { r: S, i: 5 * S };
    assert_eq!(a.add(b), Complex { r: 4 * S, i: 3 * S });
    assert_eq!(a.sub(b), Complex { r: 2 * S, i: -7 * S });
}

#[test]
fn complex_product_is_not_componentwise() {
    // (1 + 2i) * (3 - i) = 5 + 5i
    let a = Complex { r: S, i: 2 * S };
    let b = Complex { r: 3 * S, i: -S };
    assert_eq!(a.mul(b), Complex { r: 5 * S, i: 5 * S });
}

#[test]
fn complex_mag_sq() {
    // |3 + 4i|^2 = 25, in squared fixed-point units
    let a = Complex { r: 3 * S, i: 4 * S };
    assert_eq!(a.mag_sq(), 25 * S * S);
}

#[test]
fn fixed_mul_rounds_toward_zero() {
    // 1.5 * 1.5 = 2.25 exactly
    let one_half = 3 * S / 2;
    assert_eq!(mul_fp(one_half, one_half), 9 * S / 4);
    // the smallest positive values truncate to zero, from either sign
    assert_eq!(mul_fp(1, 1), 0);
    assert_eq!(mul_fp(-1, 1), 0);
}

#[test]
fn map_axis_endpoints() {
    // pixel 0 lands exactly on the world minimum, and the exclusive
    // pixel bound lands exactly on the world maximum
    assert_eq!(map_axis(0, 400, -2 * S, S), -2 * S);
    assert_eq!(map_axis(400, 400, -2 * S, S), S);
    assert_eq!(map_axis(1, 2, -S, S), 0);
}

#[test]
fn origin_stays_bounded() {
    let c = Complex { r: 0, i: 0 };
    assert_eq!(escape_time(c, 1, 4), Escape::Bounded);
    assert_eq!(escape_time(c, 1000, 4), Escape::Bounded);
}

#[test]
fn far_point_escapes_immediately() {
    // c = (10, 10) lies far outside the escape disk: the first iterate
    // is c itself, so it escapes at iteration 0, whatever the budget
    let c = Complex { r: 10 * S, i: 10 * S };
    assert_eq!(escape_time(c, 2, 4), Escape::Escaped(0));
    assert_eq!(escape_time(c, 1000, 4), Escape::Escaped(0));
}

#[test]
fn escape_count_is_exact() {
    // c = (-1, -1): z1=(-1,-1), z2=(-1,1), z3=(-1,-3), z4=(-9,5);
    // |z4|^2 = 106 > 16, so the point escapes at iteration 3
    let c = Complex { r: -S, i: -S };
    assert_eq!(escape_time(c, 10, 4), Escape::Escaped(3));
    // with the budget exhausted before that, it counts as bounded
    assert_eq!(escape_time(c, 2, 4), Escape::Bounded);
}

#[test]
fn fractional_coordinates() {
    // points with fractional components exercise the scaled product:
    // c = (-0.5, 0.5) and c = (-0.75, 0) stay bounded, while a point
    // just outside the set escapes after a run of full iterations
    assert_eq!(escape_time(Complex { r: -32768, i: 32768 }, 100, 4), Escape::Bounded);
    assert_eq!(escape_time(Complex { r: -49152, i: 0 }, 100, 4), Escape::Bounded);
    assert_eq!(escape_time(Complex { r: 26214, i: 39322 }, 100, 4), Escape::Escaped(15));
}

#[test]
fn bounded_color_is_white() {
    let w = Color { r: 255, g: 255, b: 255, a: 255 };
    assert_eq!(color_of(Escape::Bounded, 10, ColorMode::Grayscale), w);
    assert_eq!(color_of(Escape::Bounded, 10, ColorMode::Hue), w);
}

#[test]
fn grayscale_level() {
    // k/budget = 5/10: half brightness, rounded down
    let c = color_of(Escape::Escaped(5), 10, ColorMode::Grayscale);
    assert_eq!(c, Color { r: 127, g: 127, b: 127, a: 255 });
    let dark = color_of(Escape::Escaped(0), 10, ColorMode::Grayscale);
    assert_eq!(dark, Color { r: 0, g: 0, b: 0, a: 255 });
}

#[test]
fn hue_sector_colors() {
    // budget 6 puts k on the sector starts: red, yellow, green, cyan
    assert_eq!(color_of(Escape::Escaped(0), 6, ColorMode::Hue), Color {
        r: 255,
        g: 0,
        b: 0,
        a: 255
    });
    assert_eq!(color_of(Escape::Escaped(1), 6, ColorMode::Hue), Color {
        r: 255,
        g: 255,
        b: 0,
        a: 255
    });
    assert_eq!(color_of(Escape::Escaped(2), 6, ColorMode::Hue), Color {
        r: 0,
        g: 255,
        b: 0,
        a: 255
    });
    assert_eq!(color_of(Escape::Escaped(3), 6, ColorMode::Hue), Color {
        r: 0,
        g: 255,
        b: 255,
        a: 255
    });
    // an in-sector position ramps the rising channel
    assert_eq!(color_of(Escape::Escaped(1), 12, ColorMode::Hue), Color {
        r: 255,
        g: 127,
        b: 0,
        a: 255
    });
}

#[test]
fn hue_ramp_rises_within_first_sector() {
    // within sector 0 the green channel never falls as k grows
    let budget = 600;
    let mut last: u8 = 0;
    for k in 0..100 {
        let c = color_of(Escape::Escaped(k), budget, ColorMode::Hue);
        assert_eq!(c.r, 255);
        assert_eq!(c.b, 0);
        assert!(c.g >= last);
        last = c.g;
    }
}

#[test]
fn budget_adjustment_clamps() {
    assert_eq!(decrease_budget(1000), 800);
    assert_eq!(decrease_budget(201), 1);
    assert_eq!(decrease_budget(100), 1);
    assert_eq!(decrease_budget(1), 1);
    assert_eq!(increase_budget(1000), 1200);
    assert_eq!(increase_budget(BUDGET_MAX), BUDGET_MAX);
    assert_eq!(increase_budget(BUDGET_MAX - 100), BUDGET_MAX);
}

#[test]
fn viewport_reset_and_pan() {
    let v = Viewport::reset();
    assert_eq!(v.min_x, -131072);
    assert_eq!(v.max_x, 30802);
    assert_eq!(v.min_y, -73400);
    assert_eq!(v.max_y, 73400);
    // a pan step is a tenth of the span: (30802 + 131072) / 10 = 16187
    let left = v.pan_left();
    assert_eq!(left.min_x, -147259);
    assert_eq!(left.max_x, 14615);
    assert_eq!(left.min_y, v.min_y);
    assert_eq!(left.max_y, v.max_y);
    let right = v.pan_right();
    assert_eq!(right.min_x, -114885);
    assert_eq!(right.max_x, 46989);
    let up = v.pan_up();
    assert_eq!(up.min_y, -88080);
    assert_eq!(up.max_y, 58720);
    let down = v.pan_down();
    assert_eq!(down.min_y, -58720);
    assert_eq!(down.max_y, 88080);
}

#[test]
fn viewport_zoom() {
    let v = Viewport::reset();
    let zin = v.zoom_in();
    assert_eq!(zin.min_x, -114885);
    assert_eq!(zin.max_x, 14615);
    assert_eq!(zin.min_y, -58720);
    assert_eq!(zin.max_y, 58720);
    let zout = v.zoom_out();
    assert_eq!(zout.min_x, -147259);
    assert_eq!(zout.max_x, 46989);
    assert_eq!(zout.min_y, -88080);
    assert_eq!(zout.max_y, 88080);
}

#[test]
fn render_grid_shape() {
    let buf = render(3, 5, -2 * S, S, -S, S, 8);
    assert_eq!(buf.len(), 15);
    let wide = render(5, 3, -2 * S, S, -S, S, 8);
    assert_eq!(wide.len(), 15);
    // same world point at transposed grid positions gets the same color
    // only by recomputation, not by any shared state
    assert_eq!(buf[0], wide[0]);
}

#[test]
fn render_end_to_end() {
    // a 2x2 grid over [-1,1] x [-1,1] with budget 10:
    // pixel (0,0) maps to world (-1,-1), which escapes at iteration 3;
    // the other pixels map to points that stay bounded and come out white
    let buf = render(2, 2, -S, S, -S, S, 10);
    assert_eq!(buf.len(), 4);
    // k = 3, budget = 10: sector 1, ramp 204 -> (51, 255, 0)
    assert_eq!(buf[0], Color { r: 51, g: 255, b: 0, a: 255 });
    let white = Color { r: 255, g: 255, b: 255, a: 255 };
    assert_eq!(buf[1], white);
    assert_eq!(buf[2], white);
    assert_eq!(buf[3], white);
}

#[test]
fn render_twice_is_identical() {
    let a = render(8, 6, -2 * S, S, -S, S, 25);
    let b = render(8, 6, -2 * S, S, -S, S, 25);
    assert_eq!(a, b);
}

#[test]
fn render_grayscale_mode() {
    // the far corner of a wide viewport escapes at iteration 0: black
    let buf = render_with(2, 2, -4 * S, 4 * S, -4 * S, 4 * S, 10, 2, ColorMode::Grayscale);
    assert_eq!(buf[0], Color { r: 0, g: 0, b: 0, a: 255 });
}

#[test]
fn ppm_payload_bytes() {
    // a 2x1 buffer of a red and a green pixel: after the header, the
    // payload is exactly FF 00 00 00 FF 00
    let pix = vec![
        Color { r: 255, g: 0, b: 0, a: 255 },
        Color { r: 0, g: 255, b: 0, a: 255 },
    ];
    let bytes = ppm_bytes(2, 1, &pix);
    let header: &[u8] = b"P6 2 1 255\n";
    assert_eq!(&bytes[..header.len()], header);
    assert_eq!(&bytes[header.len()..], &[0xFF, 0x00, 0x00, 0x00, 0xFF, 0x00]);
}

#[test]
fn ppm_header_multidigit() {
    let pix = vec![Color { r: 9, g: 8, b: 7, a: 255 }; 36];
    let bytes = ppm_bytes(12, 3, &pix);
    let header: &[u8] = b"P6 12 3 255\n";
    assert_eq!(&bytes[..header.len()], header);
    assert_eq!(bytes.len(), header.len() + 36 * 3);
    assert_eq!(&bytes[header.len()..header.len() + 3], &[9, 8, 7]);
}
