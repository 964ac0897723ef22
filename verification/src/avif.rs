//! # AVIF Quantizers.
//!
//! The guided encoder steps through qualities where higher is better, while
//! `libavif` works with quantizers where lower is better, and treats color
//! and alpha separately. This module converts the one to the others.

use vstd::prelude::*;

verus! {

/// # A fraction `e / d` (with `e` capped at `d`) scaled to `base`, rounded
/// down.
pub open spec fn ratio_spec(e: u8, d: u8, base: u8) -> u8 {
    if d == 0 {
        0
    } else {
        let m: int = if e < d { e as int } else { d as int };
        ((m * base) / (d as int)) as u8
    }
}

/// # The color and alpha quantizers for a quality.
pub open spec fn quantizers_spec(quality: u8) -> (u8, u8) {
    let q: int = 63 - (if quality < 63 { quality as int } else { 63 });
    if q == 0 {
        (0, 0)
    } else {
        let a1: int = ratio_spec(quality, 63, 100) as int;
        let half: int = (a1 + 100) / 2;
        let step: int = a1 + a1 / 4 + 2;
        let a2: int = if half < step { half } else { step };
        (q as u8, (63 - ratio_spec(a2 as u8, 100, 63)) as u8)
    }
}

/// # Ratio Of.
///
/// This takes a fraction, multiplies it against a new base, and returns
/// that value, rounded down. The numerator is capped at the denominator, so
/// the result never exceeds the base; a zero denominator gives zero.
pub fn ratio_of(e: u8, d: u8, base: u8) -> (r: u8)
    ensures
        r == ratio_spec(e, d, base),
        r <= base,
{
    if d == 0 {
        return 0;
    }
    let m: u16 = if e < d { e as u16 } else { d as u16 };
    let b: u16 = base as u16;
    let d16: u16 = d as u16;
    assert(m * b <= d16 * b && d16 * b <= 65025) by (nonlinear_arith)
        requires m <= d16, d16 <= 255, b <= 255;
    assert((m * b) / (d16 as int) <= b) by (nonlinear_arith)
        requires m <= d16, d16 > 0, b <= 255;
    ((m * b) / d16) as u8
}

/// # Quality to Quantizer(s).
///
/// This converts the quality stepping of the guided encoder into
/// appropriate `libavif` quantizers: the color quantizer is the quality
/// flipped (out of 63), and the alpha quantizer follows a formula that
/// recalibrates the value to be out of 100, eases it, and brings it back to
/// be out of 63. The best quality gives lossless quantizers for both.
pub fn quality_to_quantizers(quality: u8) -> (r: (u8, u8))
    ensures
        r == quantizers_spec(quality),
        r.0 <= 63,
        r.1 <= 63,
{
    // Color first.
    let capped: u8 = if quality < 63 { quality } else { 63 };
    let q: u8 = 63 - capped;
    if q == 0 {
        return (0, 0);
    }

    // Alpha follows a neat little formula: recalibrate the value to be out
    // of 100, then re-recalibrate it to be out of 63.
    let a1: u8 = ratio_of(quality, 63, 100);
    let half: u8 = (a1 + 100) / 2;
    let step: u8 = a1 + a1 / 4 + 2;
    let a2: u8 = if half < step { half } else { step };
    let aq: u8 = 63 - ratio_of(a2, 100, 63);

    (q, aq)
}


/// # The largest pixel count `libavif` accepts: 16,384 squared.
pub const AVIF_MAX_PIXELS: u64 = 268_435_456;

/// # AVIF-Sized?
///
/// Returns true if an image of the given dimensions is within the pixel
/// count AVIF allows.
pub fn avif_dimensions_ok(width: usize, height: usize) -> (r: bool)
    ensures r == ((width as int) * (height as int) <= AVIF_MAX_PIXELS),
{
    match width.checked_mul(height) {
        Some(n) => n as u64 <= AVIF_MAX_PIXELS,
        None => {
            assert((width as int) * (height as int) > AVIF_MAX_PIXELS);
            false
        },
    }
}

} // verus!
