use pixel_engine::models::ImageData;
use pixel_engine::transform::adjust_brightness;
use pixel_engine::transform::adjust_contrast;
use pixel_engine::transform::convert_to_grayscale;

fn image(width: u32, height: u32, data: Vec<u8>) -> ImageData {
    ImageData { width, height, data, format: "rgba".to_owned() }
}

#[test]
fn brightness_identity_amount_one() {
    let buffer = image(2, 1, vec![0, 50, 128, 255, 200, 254, 255, 7]);
    let result = adjust_brightness(&buffer, 1000);
    assert_eq!(result.data, buffer.data);
    assert_eq!(result.width, 2);
    assert_eq!(result.height, 1);
    assert_eq!(result.format, "rgba");
}

#[test]
fn brightness_clamps_instead_of_wrapping() {
    let buffer = image(1, 1, vec![255, 255, 255, 255]);
    let result = adjust_brightness(&buffer, 2000);
    assert_eq!(result.data, vec![255, 255, 255, 255]);
}

#[test]
fn brightness_scales_and_truncates() {
    let buffer = image(1, 1, vec![100, 10, 3, 200]);
    let result = adjust_brightness(&buffer, 1500);
    // 150.0, 15.0 and 4.5 truncated; alpha untouched.
    assert_eq!(result.data, vec![150, 15, 4, 200]);
}

#[test]
fn brightness_negative_amount_floors_at_zero() {
    let buffer = image(1, 1, vec![10, 200, 0, 90]);
    let result = adjust_brightness(&buffer, -1000);
    assert_eq!(result.data, vec![0, 0, 0, 90]);
}

#[test]
fn contrast_identity_amount_one() {
    let buffer = image(2, 1, vec![0, 50, 128, 255, 200, 254, 255, 7]);
    let result = adjust_contrast(&buffer, 1000);
    assert_eq!(result.data, buffer.data);
}

#[test]
fn contrast_pivot_is_fixed_for_any_amount() {
    let buffer = image(1, 1, vec![128, 128, 128, 77]);
    for amount in [0, 500, 1000, 2000, 10_000, -3000] {
        let result = adjust_contrast(&buffer, amount);
        assert_eq!(result.data, vec![128, 128, 128, 77]);
    }
}

#[test]
fn contrast_stretches_and_clamps() {
    let buffer = image(1, 1, vec![200, 50, 150, 255]);
    let result = adjust_contrast(&buffer, 2000);
    // (200-128)*2+128 = 272 -> 255; (50-128)*2+128 = -28 -> 0; (150-128)*2+128 = 172.
    assert_eq!(result.data, vec![255, 0, 172, 255]);
}

#[test]
fn contrast_fractional_amount_truncates() {
    let buffer = image(1, 1, vec![150, 100, 128, 9]);
    let result = adjust_contrast(&buffer, 1500);
    // (22*1.5)+128 = 161; (-28*1.5)+128 = 86; pivot stays.
    assert_eq!(result.data, vec![161, 86, 128, 9]);
}

#[test]
fn grayscale_uses_luminosity_weights() {
    let buffer = image(2, 2, vec![
        255, 0, 0, 255, //
        0, 255, 0, 255, //
        0, 0, 255, 255, //
        255, 255, 255, 0,
    ]);
    let result = convert_to_grayscale(&buffer);
    assert_eq!(result.data, vec![
        76, 76, 76, 255, //
        149, 149, 149, 255, //
        29, 29, 29, 255, //
        255, 255, 255, 0,
    ]);
}

#[test]
fn grayscale_is_idempotent() {
    let buffer = image(2, 2, vec![
        1, 2, 3, 4, //
        200, 100, 50, 0, //
        17, 230, 99, 255, //
        128, 64, 32, 16,
    ]);
    let once = convert_to_grayscale(&buffer);
    let twice = convert_to_grayscale(&once);
    assert_eq!(twice.data, once.data);
    assert_eq!(twice.width, once.width);
    assert_eq!(twice.height, once.height);
}

#[test]
fn transforms_pass_trailing_partial_group_through() {
    let buffer = image(1, 1, vec![100, 100, 100, 255, 42, 43]);
    let brightened = adjust_brightness(&buffer, 2000);
    assert_eq!(brightened.data, vec![200, 200, 200, 255, 42, 43]);
    let stretched = adjust_contrast(&buffer, 2000);
    assert_eq!(stretched.data, vec![72, 72, 72, 255, 42, 43]);
    let gray = convert_to_grayscale(&buffer);
    assert_eq!(gray.data, vec![100, 100, 100, 255, 42, 43]);
}

#[test]
fn transforms_keep_dimensions_and_format() {
    let buffer = image(3, 5, vec![7; 60]);
    for result in [
        adjust_brightness(&buffer, 700),
        adjust_contrast(&buffer, 1300),
        convert_to_grayscale(&buffer),
    ] {
        assert_eq!(result.width, 3);
        assert_eq!(result.height, 5);
        assert_eq!(result.format, "rgba");
        assert_eq!(result.data.len(), 60);
    }
}
