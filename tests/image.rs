use raycaster::camera::pixel_direction;
use raycaster::ppm::{encode_image, push_decimal, push_header, push_pixel, Rgb};
use raycaster::quantize::color_u8_from_scaled;
use raycaster::raster::raster_order;

fn scaled(c: f64) -> i64 {
    (255.0 * c) as i64
}

#[test]
fn quantize_above_one_saturates() {
    assert_eq!(color_u8_from_scaled(scaled(1.2)), 255);
}

#[test]
fn quantize_zero_is_zero() {
    assert_eq!(color_u8_from_scaled(scaled(0.0)), 0);
}

#[test]
fn quantize_half_truncates() {
    assert_eq!(color_u8_from_scaled(scaled(0.5)), 127);
}

#[test]
fn quantize_negative_clamps_to_zero() {
    assert_eq!(color_u8_from_scaled(-3), 0);
    assert_eq!(color_u8_from_scaled(i64::MIN), 0);
}

#[test]
fn quantize_in_range_is_kept() {
    assert_eq!(color_u8_from_scaled(200), 200);
    assert_eq!(color_u8_from_scaled(255), 255);
    assert_eq!(color_u8_from_scaled(256), 255);
    assert_eq!(color_u8_from_scaled(i64::MAX), 255);
}

#[test]
fn direction_of_corner_and_centre() {
    let d = pixel_direction(0, 0, 800, 600);
    assert_eq!((d.x, d.y, d.z), (-400, -300, 300));
    let d = pixel_direction(400, 300, 800, 600);
    assert_eq!((d.x, d.y, d.z), (0, 0, 300));
    let d = pixel_direction(799, 599, 800, 600);
    assert_eq!((d.x, d.y, d.z), (399, 299, 300));
}

#[test]
fn direction_rounds_odd_halves_down() {
    let d = pixel_direction(0, 2, 3, 5);
    assert_eq!((d.x, d.y, d.z), (-1, 0, 2));
}

#[test]
fn raster_order_is_row_major() {
    let c = raster_order(3, 2);
    assert_eq!(c, vec![(0, 0), (1, 0), (2, 0), (0, 1), (1, 1), (2, 1)]);
}

#[test]
fn raster_order_of_empty_image() {
    assert!(raster_order(0, 7).is_empty());
    assert!(raster_order(7, 0).is_empty());
}

#[test]
fn decimal_digits() {
    let mut out = vec![b'x'];
    push_decimal(&mut out, 0);
    push_decimal(&mut out, 7);
    push_decimal(&mut out, 10);
    push_decimal(&mut out, 4294967295);
    assert_eq!(out, b"x07104294967295".to_vec());
}

#[test]
fn header_lines() {
    let mut out = Vec::new();
    push_header(&mut out, 800, 600);
    assert_eq!(out, b"P3\n800\n600\n255\n".to_vec());
}

#[test]
fn pixel_triplet_text() {
    let mut out = Vec::new();
    push_pixel(&mut out, Rgb { r: 255, g: 0, b: 127 });
    assert_eq!(out, b"255 0 127 ".to_vec());
}

#[test]
fn small_image_text() {
    let pixels = vec![
        Rgb { r: 1, g: 2, b: 3 },
        Rgb { r: 255, g: 255, b: 255 },
    ];
    let bytes = encode_image(2, 1, &pixels);
    assert_eq!(bytes, b"P3\n2\n1\n255\n1 2 3 255 255 255 ".to_vec());
}

#[test]
fn empty_image_is_header_only() {
    let bytes = encode_image(0, 0, &Vec::new());
    assert_eq!(bytes, b"P3\n0\n0\n255\n".to_vec());
}

#[test]
fn full_size_image_layout() {
    let coords = raster_order(800, 600);
    let pixels: Vec<Rgb> = coords
        .iter()
        .map(|&(x, y)| Rgb {
            r: (x % 256) as u8,
            g: (y % 256) as u8,
            b: 255,
        })
        .collect();
    let bytes = encode_image(800, 600, &pixels);
    let text = String::from_utf8(bytes).unwrap();
    let mut lines = text.splitn(5, '\n');
    assert_eq!(lines.next(), Some("P3"));
    assert_eq!(lines.next(), Some("800"));
    assert_eq!(lines.next(), Some("600"));
    assert_eq!(lines.next(), Some("255"));
    let values: Vec<u32> = lines
        .next()
        .unwrap()
        .split_whitespace()
        .map(|v| v.parse().unwrap())
        .collect();
    assert_eq!(values.len(), 3 * 800 * 600);
    assert!(values.iter().all(|&v| v <= 255));
    // the second row starts right after the first 800 pixels
    assert_eq!(&values[3 * 800..3 * 801], &[0, 1, 255]);
}
