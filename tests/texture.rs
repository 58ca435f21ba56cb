use raytracer::texture::ImageTexture;

fn sample_image() -> Vec<u8> {
    // 3 x 2 pixels, row-major
    vec![
        1, 2, 3, 4, 5, 6, 7, 8, 9, //
        10, 11, 12, 13, 14, 15, 16, 17, 18,
    ]
}

#[test]
fn texel_reads_row_major() {
    let t = ImageTexture::from_rgb8(3, 2, sample_image()).unwrap();
    assert_eq!((t.width(), t.height()), (3, 2));
    assert_eq!(t.texel(0, 0), Some((1, 2, 3)));
    assert_eq!(t.texel(2, 0), Some((7, 8, 9)));
    assert_eq!(t.texel(1, 1), Some((13, 14, 15)));
}

#[test]
fn texel_clamps_past_the_edge() {
    let t = ImageTexture::from_rgb8(3, 2, sample_image()).unwrap();
    assert_eq!(t.texel(3, 0), Some((7, 8, 9)));
    assert_eq!(t.texel(100, 2), Some((16, 17, 18)));
    assert_eq!(t.texel(0, 7), Some((10, 11, 12)));
}

#[test]
fn from_rgb8_refuses_short_or_empty() {
    assert!(ImageTexture::from_rgb8(3, 2, vec![0u8; 17]).is_none());
    assert!(ImageTexture::from_rgb8(0, 2, vec![0u8; 18]).is_none());
    assert!(ImageTexture::from_rgb8(3, 0, vec![]).is_none());
    assert!(ImageTexture::from_rgb8(3, 2, vec![0u8; 19]).is_some());
}

#[test]
fn missing_texture_has_no_texels() {
    let t = ImageTexture::missing();
    assert_eq!((t.width(), t.height()), (-1, -1));
    assert_eq!(t.texel(0, 0), None);
}
