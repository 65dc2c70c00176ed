//! The per-pixel transforms: brightness scaling, contrast stretch around a
//! fixed pivot, and grayscale conversion.
//!
//! Each transform walks the buffer in 4-byte RGBA groups, rewrites the red,
//! green and blue channels independently, leaves every alpha byte untouched,
//! and copies a trailing partial group through unchanged. The scaling amounts
//! are fixed-point values in thousandths: an `amount_milli` of 1000 means a
//! factor of exactly 1, 2000 a factor of 2, and a negative value a negative
//! factor (whose products all clamp to zero).

use crate::models::ImageData;
use crate::num_pixels;
use crate::luminosity;
use crate::luminosity_value;
use crate::pixel_blue;
use crate::pixel_green;
use crate::pixel_red;
use vstd::prelude::*;

verus! {

/// One channel under brightness scaling: `clamp(c * amount, 0, 255)` with
/// the product truncated to an integer. A non-positive amount drives every
/// channel to zero.
pub open spec fn brightness_channel(c: u8, amount_milli: i32) -> u8 {
    if amount_milli <= 0 {
        0u8
    } else if (c * amount_milli) / 1000 > 255 {
        255u8
    } else {
        ((c * amount_milli) / 1000) as u8
    }
}

/// One channel under contrast stretching: `clamp((c - 128) * amount + 128,
/// 0, 255)`, truncated to an integer. The whole affine image is computed in
/// thousandths first, so the sign test precedes the division.
pub open spec fn contrast_channel(c: u8, amount_milli: i32) -> u8 {
    let t = (c - 128) * amount_milli + 128000;
    if t < 0 {
        0u8
    } else if t / 1000 > 255 {
        255u8
    } else {
        (t / 1000) as u8
    }
}

/// Gray value of pixel `i`: its luminosity, truncated.
pub open spec fn pixel_gray(data: Seq<u8>, i: int) -> u8 {
    luminosity(pixel_red(data, i), pixel_green(data, i), pixel_blue(data, i)) as u8
}

/// Whether byte `j` is a red, green or blue byte of a complete pixel group;
/// alpha bytes and a trailing partial group pass through every transform.
pub open spec fn is_color_byte(data: Seq<u8>, j: int) -> bool {
    j < 4 * num_pixels(data) && j % 4 != 3
}

/// The whole buffer under brightness scaling.
pub open spec fn brightness_data(data: Seq<u8>, amount_milli: i32) -> Seq<u8> {
    Seq::new(
        data.len(),
        |j: int|
            if is_color_byte(data, j) {
                brightness_channel(data[j], amount_milli)
            } else {
                data[j]
            },
    )
}

/// The whole buffer under contrast stretching.
pub open spec fn contrast_data(data: Seq<u8>, amount_milli: i32) -> Seq<u8> {
    Seq::new(
        data.len(),
        |j: int|
            if is_color_byte(data, j) {
                contrast_channel(data[j], amount_milli)
            } else {
                data[j]
            },
    )
}

/// The whole buffer under grayscale conversion: each complete pixel's red,
/// green and blue bytes are replaced by that pixel's gray value.
pub open spec fn grayscale_data(data: Seq<u8>) -> Seq<u8> {
    Seq::new(
        data.len(),
        |j: int|
            if is_color_byte(data, j) {
                pixel_gray(data, j / 4)
            } else {
                data[j]
            },
    )
}

/// Grayscale idempotence: a second conversion changes nothing, because the
/// luminosity of a gray pixel is its own gray value (the weights total
/// exactly 1000).
pub proof fn lemma_grayscale_idempotent(data: Seq<u8>)
    ensures
        grayscale_data(grayscale_data(data)) == grayscale_data(data),
{
    let once = grayscale_data(data);
    let twice = grayscale_data(once);
    assert forall|j: int| 0 <= j < twice.len() implies twice[j] == once[j] by {
        if is_color_byte(once, j) {
            let i = j / 4;
            assert(4 * i <= j < 4 * i + 4);
            assert(j < 4 * num_pixels(data));
            assert(4 * i + 3 < 4 * num_pixels(data));
            assert(is_color_byte(once, 4 * i) && (4 * i) / 4 == i);
            assert(is_color_byte(once, 4 * i + 1) && (4 * i + 1) / 4 == i);
            assert(is_color_byte(once, 4 * i + 2) && (4 * i + 2) / 4 == i);
            let g = pixel_gray(data, i);
            assert(once[4 * i] == g && once[4 * i + 1] == g && once[4 * i + 2] == g);
            crate::lemma_luminosity_range(pixel_red(data, i), pixel_green(data, i), pixel_blue(data, i));
            assert(luminosity(g, g, g) == (1000 * g) / 1000);
            assert((1000 * (g as int)) / 1000 == g) by (nonlinear_arith);
            assert(pixel_gray(once, i) == g);
        }
    };
    assert(twice =~= once);
}

/// Brightness identity: scaling by exactly 1 (an amount of 1000
/// thousandths) returns every byte, alpha included, unchanged.
pub proof fn lemma_brightness_identity(data: Seq<u8>)
    ensures
        brightness_data(data, 1000) == data,
{
    assert forall|j: int| 0 <= j < data.len() implies brightness_data(data, 1000)[j] == data[j] by {
        if is_color_byte(data, j) {
            let c = data[j];
            assert(((c as int) * 1000) / 1000 == c) by (nonlinear_arith);
        }
    };
    assert(brightness_data(data, 1000) =~= data);
}

/// Contrast identity: stretching by exactly 1 (an amount of 1000
/// thousandths) returns every byte, alpha included, unchanged.
pub proof fn lemma_contrast_identity(data: Seq<u8>)
    ensures
        contrast_data(data, 1000) == data,
{
    assert forall|j: int| 0 <= j < data.len() implies contrast_data(data, 1000)[j] == data[j] by {
        if is_color_byte(data, j) {
            let c = data[j];
            assert((c - 128) * 1000 + 128000 == 1000 * (c as int)) by (nonlinear_arith);
            assert((1000 * (c as int)) / 1000 == c) by (nonlinear_arith);
        }
    };
    assert(contrast_data(data, 1000) =~= data);
}

/// Pivot fixed point: a channel sitting exactly at the pivot value 128
/// stays at 128 under contrast stretching by any amount.
pub proof fn lemma_contrast_pivot_fixed(amount_milli: i32)
    ensures
        contrast_channel(128, amount_milli) == 128,
{
    assert((128 - 128) * amount_milli + 128000 == 128000) by (nonlinear_arith);
}

/// Applies brightness scaling to one channel byte.
fn apply_brightness(c: u8, amount_milli: i32) -> (r: u8)
    ensures
        r == brightness_channel(c, amount_milli),
{
    if amount_milli <= 0 {
        0
    } else {
        assert((c as int) * (amount_milli as int) <= 255 * 0x7fff_ffff) by (nonlinear_arith)
            requires
                0 <= c <= 255,
                0 < amount_milli <= 0x7fff_ffff,
        ;
        let p: u64 = (c as u64) * (amount_milli as u64);
        let q: u64 = p / 1000;
        if q > 255 {
            255
        } else {
            q as u8
        }
    }
}

/// Applies contrast stretching to one channel byte.
fn apply_contrast(c: u8, amount_milli: i32) -> (r: u8)
    ensures
        r == contrast_channel(c, amount_milli),
{
    assert(-0x8000_0000_0000 <= (c - 128) * amount_milli <= 0x8000_0000_0000) by (nonlinear_arith)
        requires
            0 <= c <= 255,
            -0x8000_0000 <= amount_milli <= 0x7fff_ffff,
    ;
    let t: i64 = (c as i64 - 128) * (amount_milli as i64) + 128000;
    if t < 0 {
        0
    } else {
        let q: i64 = t / 1000;
        if q > 255 {
            255
        } else {
            q as u8
        }
    }
}

/// Returns a copy of the image with every color channel scaled by
/// `amount_milli` thousandths and clamped to the byte range; alpha bytes and
/// the dimensions are untouched.
pub fn adjust_brightness(image_data: &ImageData, amount_milli: i32) -> (r: ImageData)
    ensures
        r.width == image_data.width,
        r.height == image_data.height,
        r.format@ == image_data.format@,
        r.data@ == brightness_data(image_data.data@, amount_milli),
{
    let data = &image_data.data;
    let len = data.len();
    let np = len / 4;
    let ghost target = brightness_data(data@, amount_milli);
    let mut out: Vec<u8> = Vec::new();
    let mut i: usize = 0;
    while i < np
        invariant
            np == num_pixels(data@),
            len == data@.len(),
            i <= np,
            out@.len() == 4 * i,
            target == brightness_data(data@, amount_milli),
            forall|j: int| 0 <= j < 4 * i ==> out@[j] == target[j],
        decreases np - i,
    {
        assert(4 * np <= len);
        out.push(apply_brightness(data[4 * i], amount_milli));
        out.push(apply_brightness(data[4 * i + 1], amount_milli));
        out.push(apply_brightness(data[4 * i + 2], amount_milli));
        out.push(data[4 * i + 3]);
        i = i + 1;
    }
    let mut j: usize = 4 * np;
    while j < len
        invariant
            np == num_pixels(data@),
            len == data@.len(),
            4 * np <= j <= len,
            out@.len() == j,
            target == brightness_data(data@, amount_milli),
            forall|k: int| 0 <= k < j ==> out@[k] == target[k],
        decreases len - j,
    {
        out.push(data[j]);
        j = j + 1;
    }
    assert(out@ =~= target);
    ImageData {
        width: image_data.width,
        height: image_data.height,
        data: out,
        format: image_data.format.clone(),
    }
}

/// Returns a copy of the image with every color channel stretched away from
/// the pivot 128 by `amount_milli` thousandths and clamped to the byte
/// range; alpha bytes and the dimensions are untouched.
pub fn adjust_contrast(image_data: &ImageData, amount_milli: i32) -> (r: ImageData)
    ensures
        r.width == image_data.width,
        r.height == image_data.height,
        r.format@ == image_data.format@,
        r.data@ == contrast_data(image_data.data@, amount_milli),
{
    let data = &image_data.data;
    let len = data.len();
    let np = len / 4;
    let ghost target = contrast_data(data@, amount_milli);
    let mut out: Vec<u8> = Vec::new();
    let mut i: usize = 0;
    while i < np
        invariant
            np == num_pixels(data@),
            len == data@.len(),
            i <= np,
            out@.len() == 4 * i,
            target == contrast_data(data@, amount_milli),
            forall|j: int| 0 <= j < 4 * i ==> out@[j] == target[j],
        decreases np - i,
    {
        assert(4 * np <= len);
        out.push(apply_contrast(data[4 * i], amount_milli));
        out.push(apply_contrast(data[4 * i + 1], amount_milli));
        out.push(apply_contrast(data[4 * i + 2], amount_milli));
        out.push(data[4 * i + 3]);
        i = i + 1;
    }
    let mut j: usize = 4 * np;
    while j < len
        invariant
            np == num_pixels(data@),
            len == data@.len(),
            4 * np <= j <= len,
            out@.len() == j,
            target == contrast_data(data@, amount_milli),
            forall|k: int| 0 <= k < j ==> out@[k] == target[k],
        decreases len - j,
    {
        out.push(data[j]);
        j = j + 1;
    }
    assert(out@ =~= target);
    ImageData {
        width: image_data.width,
        height: image_data.height,
        data: out,
        format: image_data.format.clone(),
    }
}

/// Returns a copy of the image with every complete pixel's red, green and
/// blue channels replaced by the pixel's gray value; alpha bytes and the
/// dimensions are untouched.
pub fn convert_to_grayscale(image_data: &ImageData) -> (r: ImageData)
    ensures
        r.width == image_data.width,
        r.height == image_data.height,
        r.format@ == image_data.format@,
        r.data@ == grayscale_data(image_data.data@),
{
    let data = &image_data.data;
    let len = data.len();
    let np = len / 4;
    let ghost target = grayscale_data(data@);
    let mut out: Vec<u8> = Vec::new();
    let mut i: usize = 0;
    while i < np
        invariant
            np == num_pixels(data@),
            len == data@.len(),
            i <= np,
            out@.len() == 4 * i,
            target == grayscale_data(data@),
            forall|j: int| 0 <= j < 4 * i ==> out@[j] == target[j],
        decreases np - i,
    {
        assert(4 * np <= len);
        let gray = luminosity_value(data[4 * i], data[4 * i + 1], data[4 * i + 2]);
        assert(gray == pixel_gray(data@, i as int)) by {
            crate::lemma_luminosity_range(data@[4 * i as int], data@[4 * i as int + 1], data@[4 * i as int + 2]);
        }
        out.push(gray);
        out.push(gray);
        out.push(gray);
        out.push(data[4 * i + 3]);
        i = i + 1;
    }
    let mut j: usize = 4 * np;
    while j < len
        invariant
            np == num_pixels(data@),
            len == data@.len(),
            4 * np <= j <= len,
            out@.len() == j,
            target == grayscale_data(data@),
            forall|k: int| 0 <= k < j ==> out@[k] == target[k],
        decreases len - j,
    {
        out.push(data[j]);
        j = j + 1;
    }
    assert(out@ =~= target);
    ImageData {
        width: image_data.width,
        height: image_data.height,
        data: out,
        format: image_data.format.clone(),
    }
}

} // verus!
