use pixel_engine::analysis::analyze_image;
use pixel_engine::models::ImageData;

fn image(width: u32, height: u32, data: Vec<u8>) -> ImageData {
    ImageData { width, height, data, format: "rgba".to_owned() }
}

fn channel_total(counts: &Vec<u32>) -> u64 {
    counts.iter().map(|&c| c as u64).sum()
}

#[test]
fn analyze_example_scenario() {
    let buffer = image(
        2,
        2,
        vec![
            255, 0, 0, 255, //
            0, 255, 0, 255, //
            0, 0, 255, 255, //
            255, 255, 255, 255,
        ],
    );
    let result = analyze_image(&buffer);
    let lum = &result.histogram.luminosity;
    assert_eq!(lum[76], 1);
    assert_eq!(lum[149], 1);
    assert_eq!(lum[29], 1);
    assert_eq!(lum[255], 1);
    assert_eq!(channel_total(lum), 4);
    assert_eq!(result.brightness_sum, 76 + 149 + 29 + 255);
    assert_eq!(result.pixel_count, 4);
    let average_brightness = (result.brightness_sum as f64) / (result.pixel_count as f64) / 255.0;
    assert!((average_brightness - 509.0 / 4.0 / 255.0).abs() < 1e-9);
}

#[test]
fn analyze_counts_color_channels() {
    let buffer = image(
        2,
        2,
        vec![
            255, 0, 0, 255, //
            0, 255, 0, 255, //
            0, 0, 255, 255, //
            255, 255, 255, 255,
        ],
    );
    let result = analyze_image(&buffer);
    assert_eq!(result.histogram.red[255], 2);
    assert_eq!(result.histogram.red[0], 2);
    assert_eq!(result.histogram.green[255], 2);
    assert_eq!(result.histogram.green[0], 2);
    assert_eq!(result.histogram.blue[255], 2);
    assert_eq!(result.histogram.blue[0], 2);
}

#[test]
fn histogram_sums_equal_visible_pixel_count() {
    // Three visible pixels, one fully transparent one.
    let buffer = image(
        2,
        2,
        vec![
            10, 20, 30, 255, //
            40, 50, 60, 1, //
            70, 80, 90, 0, //
            200, 210, 220, 128,
        ],
    );
    let result = analyze_image(&buffer);
    assert_eq!(channel_total(&result.histogram.red), 3);
    assert_eq!(channel_total(&result.histogram.green), 3);
    assert_eq!(channel_total(&result.histogram.blue), 3);
    assert_eq!(channel_total(&result.histogram.luminosity), 3);
}

#[test]
fn analyze_is_deterministic() {
    let buffer = image(3, 1, vec![1, 2, 3, 4, 5, 6, 7, 8, 9, 10, 11, 0]);
    let a = analyze_image(&buffer);
    let b = analyze_image(&buffer);
    assert_eq!(a.histogram.red, b.histogram.red);
    assert_eq!(a.histogram.green, b.histogram.green);
    assert_eq!(a.histogram.blue, b.histogram.blue);
    assert_eq!(a.histogram.luminosity, b.histogram.luminosity);
    assert_eq!(a.brightness_sum, b.brightness_sum);
    assert_eq!(a.luminosity_square_sum, b.luminosity_square_sum);
    assert_eq!(a.pixel_count, b.pixel_count);
    assert_eq!(a.dominant_colors.len(), b.dominant_colors.len());
    assert_eq!(a.dominant_colors[0].hex, b.dominant_colors[0].hex);
}

#[test]
fn fully_transparent_pixels_are_excluded() {
    let buffer = image(2, 1, vec![255, 255, 255, 0, 100, 100, 100, 0]);
    let result = analyze_image(&buffer);
    assert_eq!(channel_total(&result.histogram.red), 0);
    assert_eq!(channel_total(&result.histogram.luminosity), 0);
    assert_eq!(result.brightness_sum, 0);
    assert_eq!(result.luminosity_square_sum, 0);
    // The denominator convention: the count covers all pixels regardless.
    assert_eq!(result.pixel_count, 2);
}

#[test]
fn analyze_ignores_trailing_partial_group() {
    let buffer = image(1, 1, vec![255, 0, 0, 255, 9, 9]);
    let result = analyze_image(&buffer);
    assert_eq!(channel_total(&result.histogram.red), 1);
    assert_eq!(result.histogram.red[255], 1);
    assert_eq!(result.histogram.luminosity[76], 1);
    assert_eq!(result.brightness_sum, 76);
}

#[test]
fn analyze_zero_area_buffer() {
    let buffer = image(0, 0, vec![]);
    let result = analyze_image(&buffer);
    assert_eq!(result.pixel_count, 0);
    assert_eq!(result.brightness_sum, 0);
    assert_eq!(result.luminosity_square_sum, 0);
    assert_eq!(channel_total(&result.histogram.luminosity), 0);
}

#[test]
fn analyze_square_sum_exact() {
    let buffer = image(1, 2, vec![255, 0, 0, 255, 0, 0, 255, 255]);
    let result = analyze_image(&buffer);
    // Luminosities 76 and 29.
    assert_eq!(result.brightness_sum, 76 + 29);
    assert_eq!(result.luminosity_square_sum, 76 * 76 + 29 * 29);
}

#[test]
fn dominant_colors_are_the_gray_stub() {
    let buffer = image(1, 1, vec![12, 34, 56, 255]);
    let result = analyze_image(&buffer);
    assert_eq!(result.dominant_colors.len(), 1);
    assert_eq!(result.dominant_colors[0].r, 128);
    assert_eq!(result.dominant_colors[0].g, 128);
    assert_eq!(result.dominant_colors[0].b, 128);
    assert_eq!(result.dominant_colors[0].hex, "#808080");
}
