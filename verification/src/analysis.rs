//! Histogram computation and the exact statistics behind average brightness
//! and contrast.
//!
//! Every pixel with non-zero alpha contributes one count to each of the four
//! histogram channels (red, green, blue, luminosity); fully transparent
//! pixels are excluded throughout. The brightness and contrast figures are
//! reported as exact integer moments of the luminosity histogram, leaving
//! the divisions (whose denominator is the total pixel count, transparent
//! pixels included) and the square root to the caller.

use crate::models::AnalysisResult;
use crate::models::ColorSample;
use crate::models::HistogramData;
use crate::models::ImageData;
use crate::num_pixels;
use crate::luminosity_value;
use crate::pixel_blue;
use crate::pixel_green;
use crate::pixel_luminosity;
use crate::pixel_red;
use crate::pixel_visible;
use vstd::prelude::*;

verus! {

/// The four statistics channels a histogram is kept for.
pub enum Channel {
    Red,
    Green,
    Blue,
    Luminosity,
}

/// The value pixel `i` contributes to channel `ch`; always in `0 ..= 255`.
pub open spec fn pixel_value(data: Seq<u8>, ch: Channel, i: int) -> int {
    match ch {
        Channel::Red => pixel_red(data, i) as int,
        Channel::Green => pixel_green(data, i) as int,
        Channel::Blue => pixel_blue(data, i) as int,
        Channel::Luminosity => pixel_luminosity(data, i),
    }
}

/// How many of the first `n` pixels are visible (non-zero alpha) and show
/// value `v` on channel `ch`.
pub open spec fn channel_count(data: Seq<u8>, ch: Channel, v: int, n: int) -> nat
    decreases n,
{
    if n <= 0 {
        0
    } else if pixel_visible(data, n - 1) && pixel_value(data, ch, n - 1) == v {
        channel_count(data, ch, v, n - 1) + 1
    } else {
        channel_count(data, ch, v, n - 1)
    }
}

/// How many of the first `n` pixels are visible (non-zero alpha).
pub open spec fn visible_count(data: Seq<u8>, n: int) -> nat
    decreases n,
{
    if n <= 0 {
        0
    } else if pixel_visible(data, n - 1) {
        visible_count(data, n - 1) + 1
    } else {
        visible_count(data, n - 1)
    }
}

/// Sum of `channel_count` over the values `0 .. upto`.
pub open spec fn bucket_count_sum(data: Seq<u8>, ch: Channel, upto: int, n: int) -> nat
    decreases upto,
{
    if upto <= 0 {
        0
    } else {
        bucket_count_sum(data, ch, upto - 1, n) + channel_count(data, ch, upto - 1, n)
    }
}

/// Sum of `v * channel_count(v)` over the values `0 .. upto`: the first raw
/// moment of the histogram.
pub open spec fn weighted_sum(data: Seq<u8>, ch: Channel, upto: int, n: int) -> int
    decreases upto,
{
    if upto <= 0 {
        0
    } else {
        weighted_sum(data, ch, upto - 1, n) + (upto - 1) * channel_count(data, ch, upto - 1, n)
    }
}

/// Sum of `v * v * channel_count(v)` over the values `0 .. upto`: the second
/// raw moment of the histogram.
pub open spec fn square_weighted_sum(data: Seq<u8>, ch: Channel, upto: int, n: int) -> int
    decreases upto,
{
    if upto <= 0 {
        0
    } else {
        square_weighted_sum(data, ch, upto - 1, n) + (upto - 1) * (upto - 1) * channel_count(
            data,
            ch,
            upto - 1,
            n,
        )
    }
}

/// A count over `n` pixels can be at most `n`.
proof fn lemma_channel_count_le(data: Seq<u8>, ch: Channel, v: int, n: int)
    requires
        n >= 0,
    ensures
        channel_count(data, ch, v, n) <= n,
    decreases n,
{
    if n > 0 {
        lemma_channel_count_le(data, ch, v, n - 1);
    }
}

/// Every pixel value lies under 256, whatever the channel.
proof fn lemma_pixel_value_range(data: Seq<u8>, ch: Channel, i: int)
    ensures
        0 <= pixel_value(data, ch, i) < 256,
{
    crate::lemma_luminosity_range(pixel_red(data, i), pixel_green(data, i), pixel_blue(data, i));
}

/// Counting no pixels gives an empty histogram, whatever the range of values.
proof fn lemma_bucket_sum_zero(data: Seq<u8>, ch: Channel, upto: int)
    ensures
        bucket_count_sum(data, ch, upto, 0) == 0,
    decreases upto,
{
    if upto > 0 {
        lemma_bucket_sum_zero(data, ch, upto - 1);
    }
}

/// Taking one more pixel into account raises the bucket sum by one exactly
/// when that pixel is visible and its value falls inside the summed range.
proof fn lemma_bucket_sum_step(data: Seq<u8>, ch: Channel, upto: int, n: int)
    requires
        n >= 1,
    ensures
        bucket_count_sum(data, ch, upto, n) == bucket_count_sum(data, ch, upto, n - 1) + (
        if pixel_visible(data, n - 1) && 0 <= pixel_value(data, ch, n - 1) < upto {
            1int
        } else {
            0int
        }),
    decreases upto,
{
    if upto > 0 {
        lemma_bucket_sum_step(data, ch, upto - 1, n);
    }
}

/// Over the full value range `0 .. 256`, the histogram's counts total the
/// number of visible pixels.
proof fn lemma_bucket_sum_full(data: Seq<u8>, ch: Channel, n: int)
    requires
        n >= 0,
    ensures
        bucket_count_sum(data, ch, 256, n) == visible_count(data, n),
    decreases n,
{
    if n == 0 {
        lemma_bucket_sum_zero(data, ch, 256);
    } else {
        lemma_bucket_sum_full(data, ch, n - 1);
        lemma_bucket_sum_step(data, ch, 256, n);
        lemma_pixel_value_range(data, ch, n - 1);
    }
}

/// Both raw moments are non-negative and grow at most linearly with the
/// pixel count: each bucket contributes at most `255 * n` (first moment)
/// or `255 * 255 * n` (second moment).
proof fn lemma_moment_bounds(data: Seq<u8>, ch: Channel, upto: int, n: int)
    requires
        0 <= upto <= 256,
        n >= 0,
    ensures
        0 <= weighted_sum(data, ch, upto, n) <= 255 * upto * n,
        0 <= square_weighted_sum(data, ch, upto, n) <= 255 * 255 * upto * n,
    decreases upto,
{
    if upto > 0 {
        lemma_moment_bounds(data, ch, upto - 1, n);
        lemma_channel_count_le(data, ch, upto - 1, n);
        let c = channel_count(data, ch, upto - 1, n) as int;
        assert(0 <= (upto - 1) * c <= 255 * n) by (nonlinear_arith)
            requires
                0 <= c <= n,
                0 <= upto - 1 <= 255,
        ;
        assert(0 <= (upto - 1) * (upto - 1) * c <= 255 * 255 * n) by (nonlinear_arith)
            requires
                0 <= c <= n,
                0 <= upto - 1 <= 255,
        ;
        assert(255 * (upto - 1) * n + 255 * n == 255 * upto * n) by (nonlinear_arith);
        assert(255 * 255 * (upto - 1) * n + 255 * 255 * n == 255 * 255 * upto * n) by (nonlinear_arith);
    }
}

/// The histogram `h` describes the buffer `data`: 256 counters per channel,
/// and counter `v` of each channel holds exactly the number of visible
/// pixels showing value `v` there.
pub open spec fn histogram_matches(h: HistogramData, data: Seq<u8>) -> bool {
    let np = num_pixels(data);
    &&& h.red@.len() == 256
    &&& h.green@.len() == 256
    &&& h.blue@.len() == 256
    &&& h.luminosity@.len() == 256
    &&& forall|v: int| 0 <= v < 256 ==> h.red@[v] == channel_count(data, Channel::Red, v, np)
    &&& forall|v: int| 0 <= v < 256 ==> h.green@[v] == channel_count(data, Channel::Green, v, np)
    &&& forall|v: int| 0 <= v < 256 ==> h.blue@[v] == channel_count(data, Channel::Blue, v, np)
    &&& forall|v: int|
        0 <= v < 256 ==> h.luminosity@[v] == channel_count(data, Channel::Luminosity, v, np)
}

/// The dominant-color palette is a fixed single mid-gray swatch: a
/// placeholder for true color quantization, reproduced as such.
pub open spec fn dominant_colors_stub(samples: Seq<ColorSample>) -> bool {
    &&& samples.len() == 1
    &&& samples[0].r == 128
    &&& samples[0].g == 128
    &&& samples[0].b == 128
    &&& samples[0].hex@ == "#808080"@
}

/// Everything `analyze_image` promises of its result: a matching histogram,
/// the exact first and second raw moments of the luminosity histogram, the
/// total pixel count, and the placeholder palette.
pub open spec fn analyze_post(r: AnalysisResult, data: Seq<u8>, width: u32, height: u32) -> bool {
    let np = num_pixels(data);
    &&& histogram_matches(r.histogram, data)
    &&& r.brightness_sum == weighted_sum(data, Channel::Luminosity, 256, np)
    &&& r.luminosity_square_sum == square_weighted_sum(data, Channel::Luminosity, 256, np)
    &&& r.pixel_count == width * height
    &&& dominant_colors_stub(r.dominant_colors@)
}

/// Sum of all counters in one histogram channel.
pub open spec fn counter_sum(s: Seq<u32>) -> int
    decreases s.len(),
{
    if s.len() == 0 {
        0
    } else {
        counter_sum(s.drop_last()) + s.last()
    }
}

/// A prefix sum of matching counters equals the bucket sum over the same
/// range of values.
proof fn lemma_counter_sum_matches(s: Seq<u32>, data: Seq<u8>, ch: Channel, upto: int)
    requires
        s.len() == 256,
        0 <= upto <= 256,
        forall|v: int| 0 <= v < 256 ==> s[v] == channel_count(data, ch, v, num_pixels(data)),
    ensures
        counter_sum(s.take(upto)) == bucket_count_sum(data, ch, upto, num_pixels(data)),
    decreases upto,
{
    if upto == 0 {
        assert(s.take(0).len() == 0);
    } else {
        lemma_counter_sum_matches(s, data, ch, upto - 1);
        assert(s.take(upto).drop_last() =~= s.take(upto - 1));
        assert(s.take(upto).last() == s[upto - 1]);
    }
}

/// Histogram sum invariant: in a histogram that describes a buffer, the
/// counts of each of the four channels total the same number — the count of
/// pixels with non-zero alpha.
pub proof fn lemma_histogram_sum_invariant(h: HistogramData, data: Seq<u8>)
    requires
        histogram_matches(h, data),
    ensures
        counter_sum(h.red@) == visible_count(data, num_pixels(data)),
        counter_sum(h.green@) == visible_count(data, num_pixels(data)),
        counter_sum(h.blue@) == visible_count(data, num_pixels(data)),
        counter_sum(h.luminosity@) == visible_count(data, num_pixels(data)),
{
    let np = num_pixels(data);
    lemma_counter_sum_matches(h.red@, data, Channel::Red, 256);
    lemma_counter_sum_matches(h.green@, data, Channel::Green, 256);
    lemma_counter_sum_matches(h.blue@, data, Channel::Blue, 256);
    lemma_counter_sum_matches(h.luminosity@, data, Channel::Luminosity, 256);
    assert(h.red@.take(256) =~= h.red@);
    assert(h.green@.take(256) =~= h.green@);
    assert(h.blue@.take(256) =~= h.blue@);
    assert(h.luminosity@.take(256) =~= h.luminosity@);
    lemma_bucket_sum_full(data, Channel::Red, np);
    lemma_bucket_sum_full(data, Channel::Green, np);
    lemma_bucket_sum_full(data, Channel::Blue, np);
    lemma_bucket_sum_full(data, Channel::Luminosity, np);
}

/// Analysis determinism: two results that both describe the same buffer and
/// dimensions agree in every observable field, so a second pass over an
/// identical image reproduces the first bit for bit.
pub proof fn lemma_analyze_deterministic(
    a: AnalysisResult,
    b: AnalysisResult,
    data: Seq<u8>,
    width: u32,
    height: u32,
)
    requires
        analyze_post(a, data, width, height),
        analyze_post(b, data, width, height),
    ensures
        a.histogram.red@ == b.histogram.red@,
        a.histogram.green@ == b.histogram.green@,
        a.histogram.blue@ == b.histogram.blue@,
        a.histogram.luminosity@ == b.histogram.luminosity@,
        a.brightness_sum == b.brightness_sum,
        a.luminosity_square_sum == b.luminosity_square_sum,
        a.pixel_count == b.pixel_count,
        a.dominant_colors@.len() == b.dominant_colors@.len(),
        a.dominant_colors@[0].r == b.dominant_colors@[0].r,
        a.dominant_colors@[0].g == b.dominant_colors@[0].g,
        a.dominant_colors@[0].b == b.dominant_colors@[0].b,
        a.dominant_colors@[0].hex@ == b.dominant_colors@[0].hex@,
{
    assert(a.histogram.red@ =~= b.histogram.red@);
    assert(a.histogram.green@ =~= b.histogram.green@);
    assert(a.histogram.blue@ =~= b.histogram.blue@);
    assert(a.histogram.luminosity@ =~= b.histogram.luminosity@);
}

/// A fresh vector of 256 zeroed counters.
fn zero_counts() -> (v: Vec<u32>)
    ensures
        v@.len() == 256,
        forall|k: int| 0 <= k < 256 ==> v@[k] == 0u32,
{
    let mut v: Vec<u32> = Vec::new();
    let mut i: usize = 0;
    while i < 256
        invariant
            i <= 256,
            v@.len() == i,
            forall|k: int| 0 <= k < i ==> v@[k] == 0u32,
        decreases 256 - i,
    {
        v.push(0);
        i = i + 1;
    }
    v
}

/// Analyzes a buffer: builds the four histograms over its complete RGBA
/// groups (skipping fully transparent pixels and any trailing partial
/// group), takes the exact first and second raw moments of the luminosity
/// histogram, and attaches the placeholder palette. Average brightness and
/// contrast derive from the reported integers as `AnalysisResult` documents.
pub fn analyze_image(image_data: &ImageData) -> (r: AnalysisResult)
    requires
        num_pixels(image_data.data@) <= u32::MAX,
    ensures
        analyze_post(r, image_data.data@, image_data.width, image_data.height),
{
    let data = &image_data.data;
    let len = data.len();
    let np = len / 4;
    let mut red = zero_counts();
    let mut green = zero_counts();
    let mut blue = zero_counts();
    let mut lum_hist = zero_counts();
    let mut i: usize = 0;
    while i < np
        invariant
            np == num_pixels(data@),
            len == data@.len(),
            np <= u32::MAX,
            i <= np,
            red@.len() == 256,
            green@.len() == 256,
            blue@.len() == 256,
            lum_hist@.len() == 256,
            forall|v: int| 0 <= v < 256 ==> red@[v] == channel_count(data@, Channel::Red, v, i as int),
            forall|v: int|
                0 <= v < 256 ==> green@[v] == channel_count(data@, Channel::Green, v, i as int),
            forall|v: int|
                0 <= v < 256 ==> blue@[v] == channel_count(data@, Channel::Blue, v, i as int),
            forall|v: int|
                0 <= v < 256 ==> lum_hist@[v] == channel_count(
                    data@,
                    Channel::Luminosity,
                    v,
                    i as int,
                ),
        decreases np - i,
    {
        assert(4 * np <= len);
        let r = data[4 * i];
        let g = data[4 * i + 1];
        let b = data[4 * i + 2];
        let a = data[4 * i + 3];
        if a > 0 {
            let lum = luminosity_value(r, g, b);
            proof {
                lemma_channel_count_le(data@, Channel::Red, r as int, i as int);
                lemma_channel_count_le(data@, Channel::Green, g as int, i as int);
                lemma_channel_count_le(data@, Channel::Blue, b as int, i as int);
                lemma_channel_count_le(data@, Channel::Luminosity, lum as int, i as int);
                crate::lemma_luminosity_range(r, g, b);
            }
            let ri = r as usize;
            red[ri] = red[ri] + 1;
            let gi = g as usize;
            green[gi] = green[gi] + 1;
            let bi = b as usize;
            blue[bi] = blue[bi] + 1;
            let li = lum as usize;
            lum_hist[li] = lum_hist[li] + 1;
        }
        i = i + 1;
    }
    let mut brightness_sum: u64 = 0;
    let mut square_sum: u64 = 0;
    let mut v: usize = 0;
    while v < 256
        invariant
            np == num_pixels(data@),
            np <= u32::MAX,
            v <= 256,
            lum_hist@.len() == 256,
            forall|u: int|
                0 <= u < 256 ==> lum_hist@[u] == channel_count(
                    data@,
                    Channel::Luminosity,
                    u,
                    np as int,
                ),
            brightness_sum == weighted_sum(data@, Channel::Luminosity, v as int, np as int),
            square_sum == square_weighted_sum(data@, Channel::Luminosity, v as int, np as int),
        decreases 256 - v,
    {
        let c = lum_hist[v];
        proof {
            lemma_moment_bounds(data@, Channel::Luminosity, v as int, np as int);
            lemma_moment_bounds(data@, Channel::Luminosity, v as int + 1, np as int);
            lemma_channel_count_le(data@, Channel::Luminosity, v as int, np as int);
            assert((v as int) * (c as int) <= 255 * 0xffff_ffff) by (nonlinear_arith)
                requires
                    0 <= v < 256,
                    0 <= c <= 0xffff_ffff,
            ;
            assert((v as int) * (v as int) * (c as int) <= 255 * 255 * 0xffff_ffff)
                by (nonlinear_arith)
                requires
                    0 <= v < 256,
                    0 <= c <= 0xffff_ffff,
            ;
            assert((v as int) * (v as int) <= 255 * 255) by (nonlinear_arith)
                requires
                    0 <= v < 256,
            ;
            assert(255 * ((v as int) + 1) * (np as int) < 0x1_0000_0000_0000) by (nonlinear_arith)
                requires
                    0 <= v < 256,
                    0 <= np <= 0xffff_ffff,
            ;
            assert(255 * 255 * ((v as int) + 1) * (np as int) < 0x1000_0000_0000_0000)
                by (nonlinear_arith)
                requires
                    0 <= v < 256,
                    0 <= np <= 0xffff_ffff,
            ;
        }
        brightness_sum = brightness_sum + (v as u64) * (c as u64);
        square_sum = square_sum + (v as u64) * (v as u64) * (c as u64);
        v = v + 1;
    }
    proof {
        assert((image_data.width as int) * (image_data.height as int) <= 0xffff_ffff
            * 0xffff_ffff) by (nonlinear_arith)
            requires
                0 <= image_data.width <= 0xffff_ffff,
                0 <= image_data.height <= 0xffff_ffff,
        ;
    }
    let pixel_count: u64 = (image_data.width as u64) * (image_data.height as u64);
    let mut dominant_colors: Vec<ColorSample> = Vec::new();
    dominant_colors.push(ColorSample { r: 128, g: 128, b: 128, hex: "#808080".to_owned() });
    AnalysisResult {
        histogram: HistogramData { red, green, blue, luminosity: lum_hist },
        dominant_colors,
        brightness_sum,
        luminosity_square_sum: square_sum,
        pixel_count,
    }
}

} // verus!
