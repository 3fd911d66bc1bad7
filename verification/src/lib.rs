//! An escape-time renderer for the Mandelbrot set.
//!
//! For a rectangular region of the complex plane, the library computes, per
//! pixel, whether the corresponding point escapes the iterated map
//! `z <- z*z + c` within a fixed iteration budget, and turns the result into
//! an RGBA color. All arithmetic is exact fixed-point arithmetic over `i64`
//! (16 fractional bits), so every step of the pipeline is deterministic and
//! fully specified: the complex arithmetic, the pixel-to-world mapping, the
//! escape-time evaluation, the color ramps, the row-major frame synthesis,
//! and the binary image serialization.
//!
//! Window creation, keyboard handling and file I/O are not part of the
//! library; a shell supplies viewport parameters and consumes the pixel
//! buffer that [`render::render`] returns.

pub mod fixed;
pub mod complex;
pub mod viewport;
pub mod escape;
pub mod color;
pub mod render;
pub mod ppm;
