//! The trusted boundary to the `image` crate's encoder types.
//!
//! Saving an image means wrapping the raw buffer in an `image::RgbaImage`
//! and handing that to an encoder. Only the wrapping is done here — it is
//! pure and its success is decided exactly by the buffer's length — so the
//! engine can promise that a malformed buffer fails before any file is
//! touched, and that a returned image wraps exactly the caller's bytes and
//! dimensions. Writing the encoded file is I/O and stays with the caller.

use crate::models::ImageData;
use vstd::prelude::*;

verus! {

/// An `image::RgbaImage` ready for an encoder, opaque to the verifier.
/// The caller reaches the wrapped image through the public field to hand
/// it on; what the wrapped value holds is spoken of through
/// `encodable_width`, `encodable_height` and `encodable_bytes`.
#[verifier::external_body]
pub struct EncodableImage {
    pub image: image::RgbaImage,
}

/// The width the wrapped image's `dimensions` reports.
pub uninterp spec fn encodable_width(img: EncodableImage) -> u32;

/// The height the wrapped image's `dimensions` reports.
pub uninterp spec fn encodable_height(img: EncodableImage) -> u32;

/// The raw byte sequence the wrapped image's `into_raw` would yield — what
/// an encoder is given to write.
pub uninterp spec fn encodable_bytes(img: EncodableImage) -> Seq<u8>;

/// Relies on `image::ImageBuffer::from_raw`: it wraps the buffer exactly
/// when the buffer holds at least `width * height * 4` bytes (an RGBA pixel
/// has four subpixels, and the product is checked against `usize`), the
/// wrapped image stores exactly the given buffer and dimensions, and it
/// performs no I/O.
#[verifier::external_body]
fn rgba_from_raw(width: u32, height: u32, data: Vec<u8>) -> (r: Option<EncodableImage>)
    ensures
        r.is_some() <==> width * height * 4 <= data@.len(),
        r matches Some(img) ==> encodable_width(img) == width && encodable_height(img) == height
            && encodable_bytes(img) == data@,
{
    image::ImageBuffer::from_raw(width, height, data).map(|image| EncodableImage { image })
}

#[verifier::external_type_specification]
#[verifier::external_body]
pub struct ExDynamicImage(image::DynamicImage);

/// The pixel width of a decoded image.
pub uninterp spec fn decoded_width(img: image::DynamicImage) -> u32;

/// The pixel height of a decoded image.
pub uninterp spec fn decoded_height(img: image::DynamicImage) -> u32;

/// The RGBA8 rendering of a decoded image, as `to_rgba8` computes it — a
/// pure function of the image value.
pub uninterp spec fn decoded_rgba(img: image::DynamicImage) -> Seq<u8>;

/// Relies on `image::DynamicImage::to_rgba8` together with the accessors
/// `dimensions` and `into_raw` of the produced `RgbaImage`: the result is a
/// function of the image value alone — named `decoded_width`,
/// `decoded_height` and `decoded_rgba` — whose raw buffer holds at least
/// `width * height * 4` bytes (a converted image holds exactly that many; a
/// cloned one keeps its stored buffer, which can only be longer), and none
/// of the calls performs I/O.
#[verifier::external_body]
fn decode_rgba_parts(img: &image::DynamicImage) -> (r: (u32, u32, Vec<u8>))
    ensures
        r.0 == decoded_width(*img),
        r.1 == decoded_height(*img),
        r.2@ == decoded_rgba(*img),
        r.2@.len() >= r.0 * r.1 * 4,
{
    let rgba = img.to_rgba8();
    let (width, height) = rgba.dimensions();
    (width, height, rgba.into_raw())
}

/// Builds the engine's buffer from a decoded image: the decoder's
/// dimensions, the RGBA bytes cut to exactly `width * height * 4`, and the
/// engine's format tag. The result is always well-formed, so it can go
/// straight back through `build_rgba_image`.
pub fn image_data_from_decoded(img: &image::DynamicImage) -> (r: ImageData)
    ensures
        r.well_formed(),
        r.format@ == "rgba"@,
        r.width == decoded_width(*img),
        r.height == decoded_height(*img),
        r.data@ == decoded_rgba(*img).take(
            decoded_width(*img) * decoded_height(*img) * 4,
        ),
{
    let (width, height, mut data) = decode_rgba_parts(img);
    let dlen = data.len();
    proof {
        assert(0 <= (width as int) * (height as int) <= dlen && (width as int) * (height as int)
            * 4 <= dlen) by (nonlinear_arith)
            requires
                width >= 0,
                height >= 0,
                (width as int) * (height as int) * 4 <= dlen,
        ;
    }
    let expected: usize = (width as usize) * (height as usize) * 4;
    data.truncate(expected);
    ImageData { width, height, data, format: "rgba".to_owned() }
}

/// The saving path's failure: the buffer does not match its dimensions.
#[derive(Debug)]
pub struct EncodeError {
    pub message: String,
}

/// Wraps a buffer as an encodable RGBA image for saving. Succeeds exactly
/// when the buffer is well-formed — its byte length equals
/// `width * height * 4` — and the wrapped image then carries exactly the
/// buffer's bytes and dimensions to the encoder; otherwise it fails, before
/// any file could be touched, with the encode error message.
pub fn build_rgba_image(image_data: ImageData) -> (r: Result<EncodableImage, EncodeError>)
    ensures
        r.is_ok() <==> image_data.well_formed(),
        r matches Ok(img) ==> encodable_width(img) == image_data.width && encodable_height(img)
            == image_data.height && encodable_bytes(img) == image_data.data@,
        r matches Err(e) ==> e.message@ == "Failed to create image from data"@,
{
    let len = image_data.data.len();
    proof {
        assert((image_data.width as int) * (image_data.height as int) * 4 <= 0xffff_ffff
            * 0xffff_ffff * 4) by (nonlinear_arith)
            requires
                0 <= image_data.width <= 0xffff_ffff,
                0 <= image_data.height <= 0xffff_ffff,
        ;
    }
    let expected: u128 = (image_data.width as u128) * (image_data.height as u128) * 4;
    if len as u128 == expected {
        match rgba_from_raw(image_data.width, image_data.height, image_data.data) {
            Some(img) => Ok(img),
            None => vstd::pervasive::unreached(),
        }
    } else {
        Err(EncodeError { message: "Failed to create image from data".to_owned() })
    }
}

} // verus!
