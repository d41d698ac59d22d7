use ray_tracer::color::{format_color, u32_decimal};
use ray_tracer::ppm::{format_document, format_header};

#[test]
fn test_decimal_zero() {
    assert_eq!(u32_decimal(0), "0");
}

#[test]
fn test_decimal_single_digit() {
    assert_eq!(u32_decimal(7), "7");
}

#[test]
fn test_decimal_carries() {
    assert_eq!(u32_decimal(10), "10");
    assert_eq!(u32_decimal(255), "255");
    assert_eq!(u32_decimal(1000), "1000");
}

#[test]
fn test_decimal_largest() {
    assert_eq!(u32_decimal(u32::MAX), "4294967295");
}

#[test]
fn test_write_color() {
    assert_eq!(format_color(127, 179, 230), "127 179 230");
}

#[test]
fn test_format_color_extremes() {
    assert_eq!(format_color(0, 0, 0), "0 0 0");
    assert_eq!(format_color(255, 255, 255), "255 255 255");
}

/// The output encoding defined for the renderer: gamma correction by square
/// root (clamped at zero), then quantization of the [0, 0.999] intensity
/// interval to 8-bit channels.
fn quantize(linear: f64) -> u8 {
    let gamma = if linear > 0.0 { linear.sqrt() } else { 0.0 };
    let clamped = gamma.clamp(0.0, 0.999);
    (255.999 * clamped) as u8
}

#[test]
fn test_color_round_trip_from_formula() {
    let r = quantize(0.5);
    let g = quantize(0.7);
    let b = quantize(0.9);
    assert_eq!((r, g, b), (181, 214, 242));
    assert_eq!(format_color(r, g, b), "181 214 242");
}

#[test]
fn test_header() {
    assert_eq!(format_header(400, 225), "P3\n400 225\n255\n");
    assert_eq!(format_header(1, 1), "P3\n1 1\n255\n");
}

#[test]
fn test_document_no_pixels() {
    let lines: Vec<String> = Vec::new();
    assert_eq!(format_document(0, 0, &lines), "P3\n0 0\n255\n");
}

#[test]
fn test_document_joins_lines_with_newlines() {
    let lines = vec![
        format_color(1, 2, 3),
        format_color(4, 5, 6),
        format_color(7, 8, 9),
        format_color(10, 11, 12),
    ];
    assert_eq!(
        format_document(2, 2, &lines),
        "P3\n2 2\n255\n1 2 3\n4 5 6\n7 8 9\n10 11 12"
    );
}

#[test]
fn test_document_single_pixel() {
    let lines = vec![format_color(181, 214, 242)];
    assert_eq!(format_document(1, 1, &lines), "P3\n1 1\n255\n181 214 242");
}
