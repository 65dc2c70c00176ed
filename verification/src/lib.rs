//! Pixel-buffer analysis and transform engine.
//!
//! A flat RGBA byte buffer is analyzed (per-channel histograms, exact
//! brightness and contrast statistics) and transformed (brightness scaling,
//! contrast stretch around a fixed pivot, grayscale conversion) by pure,
//! stateless operations. Encoding to an image for saving goes through the
//! `image` crate behind a narrow, trusted boundary.

pub mod analysis;
pub mod codec;
pub mod models;
pub mod transform;

use vstd::prelude::*;

verus! {

/// Number of complete 4-byte RGBA groups in a byte buffer; a trailing
/// partial group carries no pixel.
pub open spec fn num_pixels(data: Seq<u8>) -> int {
    data.len() as int / 4
}

/// Red channel of pixel `i`.
pub open spec fn pixel_red(data: Seq<u8>, i: int) -> u8 {
    data[4 * i]
}

/// Green channel of pixel `i`.
pub open spec fn pixel_green(data: Seq<u8>, i: int) -> u8 {
    data[4 * i + 1]
}

/// Blue channel of pixel `i`.
pub open spec fn pixel_blue(data: Seq<u8>, i: int) -> u8 {
    data[4 * i + 2]
}

/// Alpha channel of pixel `i`.
pub open spec fn pixel_alpha(data: Seq<u8>, i: int) -> u8 {
    data[4 * i + 3]
}

/// A pixel enters the statistics exactly when its alpha is non-zero;
/// fully transparent pixels are skipped.
pub open spec fn pixel_visible(data: Seq<u8>, i: int) -> bool {
    pixel_alpha(data, i) != 0
}

/// Perceptual luminosity of an RGB triple: the weighted sum
/// `0.299*r + 0.587*g + 0.114*b`, truncated to an integer. The weights
/// are exact thousandths, so the value is `(299*r + 587*g + 114*b) / 1000`
/// rounded toward zero; it always lies in `0 ..= 255`.
pub open spec fn luminosity(r: u8, g: u8, b: u8) -> int {
    (299 * r + 587 * g + 114 * b) / 1000
}

/// Luminosity of pixel `i`.
pub open spec fn pixel_luminosity(data: Seq<u8>, i: int) -> int {
    luminosity(pixel_red(data, i), pixel_green(data, i), pixel_blue(data, i))
}

/// The luminosity weights total exactly 1000, so the weighted sum of three
/// bytes never exceeds `255 * 1000` and the quotient stays a byte.
pub proof fn lemma_luminosity_range(r: u8, g: u8, b: u8)
    ensures
        0 <= luminosity(r, g, b) <= 255,
{
    let s = 299 * r + 587 * g + 114 * b;
    assert(s <= 255000);
    assert(s / 1000 <= 255) by (nonlinear_arith)
        requires
            0 <= s <= 255000,
    ;
    assert(s / 1000 >= 0) by (nonlinear_arith)
        requires
            s >= 0,
    ;
}

/// Computes the perceptual luminosity of an RGB triple.
pub fn luminosity_value(r: u8, g: u8, b: u8) -> (l: u8)
    ensures
        l == luminosity(r, g, b),
{
    proof {
        lemma_luminosity_range(r, g, b);
    }
    let s: u32 = 299 * (r as u32) + 587 * (g as u32) + 114 * (b as u32);
    (s / 1000) as u8
}

} // verus!
