use raytracer::ppm::{add_color_line, add_ppm_header, encode_ppm};

#[test]
fn header_names_format_and_size() {
    let mut out = Vec::new();
    add_ppm_header(&mut out, 400, 225);
    assert_eq!(out, b"P3\n400 225\n255\n".to_vec());
}

#[test]
fn header_appends_to_existing_text() {
    let mut out = b"x".to_vec();
    add_ppm_header(&mut out, 1, 1);
    assert_eq!(out, b"xP3\n1 1\n255\n".to_vec());
}

#[test]
fn color_line_is_three_decimals() {
    let mut out = Vec::new();
    add_color_line(&mut out, 255, 0, 17);
    assert_eq!(out, b"255 0 17\n".to_vec());
}

#[test]
fn negative_and_extreme_values_are_written_in_full() {
    let mut out = Vec::new();
    add_color_line(&mut out, -5, i32::MIN, i32::MAX);
    assert_eq!(out, b"-5 -2147483648 2147483647\n".to_vec());
}

#[test]
fn image_is_header_then_rows() {
    let pixels = vec![(0, 0, 0), (255, 255, 255), (10, 20, 30), (128, 64, 1)];
    let text = encode_ppm(2, 2, &pixels);
    let expected = "P3\n2 2\n255\n0 0 0\n255 255 255\n10 20 30\n128 64 1\n";
    assert_eq!(String::from_utf8(text).unwrap(), expected);
}

#[test]
fn encoding_twice_is_byte_identical() {
    let pixels: Vec<(i32, i32, i32)> = (0..12).map(|k| (k * 20, 255 - k * 20, k)).collect();
    assert_eq!(encode_ppm(4, 3, &pixels), encode_ppm(4, 3, &pixels));
}

#[test]
fn empty_image_is_header_only() {
    assert_eq!(encode_ppm(0, 0, &Vec::new()), b"P3\n0 0\n255\n".to_vec());
}
