use pixel_engine::codec::build_rgba_image;
use pixel_engine::codec::image_data_from_decoded;
use pixel_engine::models::ImageData;

fn image(width: u32, height: u32, data: Vec<u8>) -> ImageData {
    ImageData { width, height, data, format: "rgba".to_owned() }
}

#[test]
fn build_rgba_image_accepts_well_formed_buffer() {
    let bytes: Vec<u8> = (0..16).collect();
    let buffer = image(2, 2, bytes.clone());
    let encodable = build_rgba_image(buffer).unwrap();
    assert_eq!(encodable.image.dimensions(), (2, 2));
    assert_eq!(encodable.image.as_raw(), &bytes);
}

#[test]
fn build_rgba_image_rejects_short_buffer() {
    let buffer = image(2, 2, vec![0; 15]);
    let error = build_rgba_image(buffer).err().unwrap();
    assert_eq!(error.message, "Failed to create image from data");
}

#[test]
fn build_rgba_image_rejects_long_buffer() {
    let buffer = image(2, 2, vec![0; 17]);
    let error = build_rgba_image(buffer).err().unwrap();
    assert_eq!(error.message, "Failed to create image from data");
}

#[test]
fn build_rgba_image_rejects_zero_width_with_data() {
    let buffer = image(0, 4, vec![1, 2, 3, 4]);
    assert!(build_rgba_image(buffer).is_err());
}

#[test]
fn build_rgba_image_accepts_empty_image() {
    let buffer = image(0, 0, vec![]);
    assert!(build_rgba_image(buffer).is_ok());
}

#[test]
fn decoded_image_becomes_well_formed_buffer() {
    let bytes: Vec<u8> = (0..24).collect();
    let rgba = image::RgbaImage::from_raw(3, 2, bytes.clone()).unwrap();
    let decoded = image::DynamicImage::ImageRgba8(rgba);
    let buffer = image_data_from_decoded(&decoded);
    assert_eq!(buffer.width, 3);
    assert_eq!(buffer.height, 2);
    assert_eq!(buffer.data, bytes);
    assert_eq!(buffer.format, "rgba");
    assert_eq!(buffer.data.len(), (buffer.width * buffer.height * 4) as usize);
}

#[test]
fn encode_decode_round_trip_is_lossless() {
    let bytes: Vec<u8> = vec![
        255, 0, 0, 255, //
        0, 255, 0, 128, //
        0, 0, 255, 255, //
        10, 20, 30, 0,
    ];
    let buffer = image(2, 2, bytes.clone());
    let encodable = build_rgba_image(buffer).unwrap();
    let mut encoded: Vec<u8> = Vec::new();
    encodable
        .image
        .write_to(&mut std::io::Cursor::new(&mut encoded), image::ImageFormat::Png)
        .unwrap();
    let decoded = image::load_from_memory(&encoded).unwrap().to_rgba8();
    assert_eq!(decoded.dimensions(), (2, 2));
    assert_eq!(decoded.into_raw(), bytes);
}
