//! The image exporter's byte layout: the 24-bit raw portable pixmap.
//!
//! A serialized frame is the ASCII header `"P6 {width} {height} 255\n"`
//! followed immediately by `width * height * 3` raw bytes, each pixel
//! contributing its red, green and blue channel bytes in that order —
//! no alpha, no padding, row-major, top row first. The library produces
//! the exact bytes; writing them to a file is the shell's concern, and
//! a write failure must be surfaced, never swallowed.

use vstd::prelude::*;
use crate::color::Color;

verus! {

/// The decimal digits of a nonnegative number, most significant first,
/// as ASCII bytes.
pub open spec fn dec_spec(n: int) -> Seq<u8>
    recommends
        n >= 0,
    decreases n,
{
    if n < 10 {
        seq![(48 + n) as u8]
    } else {
        dec_spec(n / 10) + seq![(48 + n % 10) as u8]
    }
}

/// Appends the decimal digits of `n` to `out`.
pub fn push_dec(out: &mut Vec<u8>, n: usize)
    ensures
        final(out)@ == old(out)@ + dec_spec(n as int),
    decreases n,
{
    if n < 10 {
        out.push(48 + (n as u8));
    } else {
        push_dec(out, n / 10);
        out.push(48 + ((n % 10) as u8));
        proof {
            assert(out@ =~= old(out)@ + dec_spec(n as int));
        }
    }
}

/// The header bytes `"P6 {width} {height} 255\n"`.
pub open spec fn ppm_header_spec(width: int, height: int) -> Seq<u8> {
    seq![80u8, 54u8, 32u8] + dec_spec(width) + seq![32u8] + dec_spec(height) + seq![
        32u8,
        50u8,
        53u8,
        53u8,
        10u8,
    ]
}

/// The payload bytes of a pixel buffer: three bytes per pixel — red,
/// green, blue — in buffer order; the alpha channel is not part of the
/// format.
pub open spec fn rgb_bytes_spec(pix: Seq<Color>) -> Seq<u8>
    decreases pix.len(),
{
    if pix.len() == 0 {
        Seq::empty()
    } else {
        rgb_bytes_spec(pix.drop_last()) + seq![pix.last().r, pix.last().g, pix.last().b]
    }
}

/// A whole serialized image: the header, then the payload.
pub open spec fn ppm_bytes_spec(width: int, height: int, pix: Seq<Color>) -> Seq<u8> {
    ppm_header_spec(width, height) + rgb_bytes_spec(pix)
}

/// Serializes a pixel buffer of the given grid size to the portable
/// pixmap byte layout, byte for byte.
pub fn ppm_bytes(width: usize, height: usize, pix: &Vec<Color>) -> (out: Vec<u8>)
    requires
        pix@.len() == width * height,
    ensures
        out@ == ppm_bytes_spec(width as int, height as int, pix@),
{
    let ghost header = ppm_header_spec(width as int, height as int);
    let mut out: Vec<u8> = Vec::new();
    out.push(80);
    out.push(54);
    out.push(32);
    push_dec(&mut out, width);
    out.push(32);
    push_dec(&mut out, height);
    out.push(32);
    out.push(50);
    out.push(53);
    out.push(53);
    out.push(10);
    proof {
        assert(out@ =~= header + rgb_bytes_spec(pix@.take(0)));
    }
    let mut i: usize = 0;
    while i < pix.len()
        invariant
            0 <= i <= pix@.len(),
            header == ppm_header_spec(width as int, height as int),
            out@ == header + rgb_bytes_spec(pix@.take(i as int)),
        decreases pix@.len() - i,
    {
        let p = pix[i];
        out.push(p.r);
        out.push(p.g);
        out.push(p.b);
        proof {
            assert(pix@.take(i + 1).drop_last() =~= pix@.take(i as int));
            assert(pix@.take(i + 1).last() == pix@[i as int]);
            assert(out@ =~= header + rgb_bytes_spec(pix@.take(i + 1)));
        }
        i = i + 1;
    }
    proof {
        assert(pix@.take(pix@.len() as int) =~= pix@);
    }
    out
}

} // verus!
