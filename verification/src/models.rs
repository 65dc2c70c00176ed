//! The value types that the engine's operations exchange.

use vstd::prelude::*;

verus! {

/// A raster image held as a flat byte buffer: `width * height` pixels,
/// 4 bytes each (red, green, blue, alpha), row-major, no padding.
///
/// A well-formed buffer has `data.len() == width * height * 4`; the
/// analysis and transform operations tolerate any length and simply
/// ignore a trailing partial group, but encoding to a file demands a
/// well-formed buffer.
#[derive(Clone, Debug)]
pub struct ImageData {
    pub width: u32,
    pub height: u32,
    pub data: Vec<u8>,
    pub format: String,
}

impl ImageData {
    /// The buffer holds exactly the bytes its dimensions call for.
    pub open spec fn well_formed(self) -> bool {
        self.data@.len() == self.width * self.height * 4
    }
}

/// Per-channel value distributions: four sequences of 256 counters each,
/// indexed by channel value. `red[v]` counts the pixels with non-zero
/// alpha whose red channel equals `v`; likewise `green` and `blue`, and
/// `luminosity[v]` counts those whose perceptual luminosity equals `v`.
#[derive(Clone, Debug)]
pub struct HistogramData {
    pub red: Vec<u32>,
    pub green: Vec<u32>,
    pub blue: Vec<u32>,
    pub luminosity: Vec<u32>,
}

/// One RGB triple together with its lowercase `#rrggbb` hex rendering.
#[derive(Clone, Debug)]
pub struct ColorSample {
    pub r: u8,
    pub g: u8,
    pub b: u8,
    pub hex: String,
}

/// Everything one analysis pass yields: the histograms, a dominant-color
/// palette, and the exact integer sums from which average brightness and
/// contrast derive.
///
/// With `S1 = brightness_sum`, `S2 = luminosity_square_sum`,
/// `N = pixel_count` and `c[i] = histogram.luminosity[i]`:
/// - average brightness is `S1 / N / 255` (as a real number), where
///   `S1 = sum over i of i * c[i]`;
/// - contrast is `sqrt(sum over i of (i - S1/N)^2 * c[i] / N) / 255`,
///   computable from the histogram and `S1`; `S2 = sum over i of i^2 * c[i]`
///   is the matching raw second moment.
///
/// The divisions and the square root are left to the caller: the engine
/// reports only exact integers, so two passes over one buffer agree bit
/// for bit, and a zero-area image surfaces as `pixel_count == 0` rather
/// than as a non-finite quotient.
#[derive(Clone, Debug)]
pub struct AnalysisResult {
    pub histogram: HistogramData,
    pub dominant_colors: Vec<ColorSample>,
    pub brightness_sum: u64,
    pub luminosity_square_sum: u64,
    pub pixel_count: u64,
}

} // verus!
