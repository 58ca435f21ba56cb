use raytracer::color::{
    ppm_header, push_decimal, push_decimal_str, write_color_ppm, write_pixel_str_ppm,
};

#[test]
fn pixel_line_bytes() {
    let mut out: Vec<u8> = Vec::new();
    write_color_ppm(&mut out, 255, 0, 17);
    assert_eq!(out, b"255 0 17\n".to_vec());
    write_color_ppm(&mut out, 1, 20, 300);
    assert_eq!(out, b"255 0 17\n1 20 300\n".to_vec());
}

#[test]
fn pixel_line_string() {
    let mut s = String::from("x");
    write_pixel_str_ppm(&mut s, 0, 128, 255);
    assert_eq!(s, "x0 128 255\n");
}

#[test]
fn decimal_edges() {
    let mut out: Vec<u8> = Vec::new();
    push_decimal(&mut out, 0);
    assert_eq!(out, b"0".to_vec());
    let mut out: Vec<u8> = Vec::new();
    push_decimal(&mut out, u32::MAX);
    assert_eq!(out, b"4294967295".to_vec());
    let mut s = String::new();
    push_decimal_str(&mut s, 1000);
    assert_eq!(s, "1000");
    let mut s = String::new();
    push_decimal_str(&mut s, u32::MAX);
    assert_eq!(s, "4294967295");
}

#[test]
fn header_text() {
    assert_eq!(ppm_header(400, 225), b"P3\n400 225\n255\n".to_vec());
    assert_eq!(ppm_header(1, 1), b"P3\n1 1\n255\n".to_vec());
}

#[test]
fn matches_std_formatting() {
    for &(r, g, b) in &[(0u32, 0u32, 0u32), (9, 10, 99), (100, 255, 65535), (123456, 7, 89)] {
        let mut out: Vec<u8> = Vec::new();
        write_color_ppm(&mut out, r, g, b);
        assert_eq!(String::from_utf8(out).unwrap(), format!("{} {} {}\n", r, g, b));
        let mut s = String::new();
        write_pixel_str_ppm(&mut s, r, g, b);
        assert_eq!(s, format!("{} {} {}\n", r, g, b));
    }
}
