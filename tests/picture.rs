use raytracer::materials::NoHit;
use raytracer::picture::{Picture, PictureData, PictureErr, PictureType};

#[test]
fn new_rejects_zero_sizes() {
    for t in [PictureType::Ppm, PictureType::Rgb8, PictureType::Rgb16] {
        assert_eq!(Picture::new(0, 5, 1, t).err(), Some(PictureErr::InvalidSize));
        assert_eq!(Picture::new(5, 0, 1, t).err(), Some(PictureErr::InvalidSize));
        assert_eq!(Picture::new(5, 5, 0, t).err(), Some(PictureErr::InvalidSize));
    }
}

#[test]
fn new_ppm_starts_with_header() {
    let mut p = Picture::new(3, 2, 10, PictureType::Ppm).unwrap();
    assert_eq!(p.width(), 3);
    assert_eq!(p.height(), 2);
    assert_eq!(p.samples_per_pixel(), 10);
    assert_eq!(p.kind(), PictureType::Ppm);
    assert_eq!(p.max_level(), 255);
    assert_eq!(p.ppm_x(), Some(0));
    assert_eq!(p.ppm_y(), Some(0));
    assert_eq!(p.take_ppm_output(), b"P3\n3 2\n255\n".to_vec());
    assert_eq!(p.take_ppm_output(), Vec::<u8>::new());
}

#[test]
fn ppm_pixels_in_order() {
    let mut p = Picture::new(2, 2, 1, PictureType::Ppm).unwrap();
    p.take_ppm_output();
    assert_eq!(p.write_pixel((1, 2, 3), 0, 0), Ok(()));
    assert_eq!(p.ppm_x(), Some(1));
    assert_eq!(p.write_pixel((4, 5, 6), 0, 1), Ok(()));
    assert_eq!(p.ppm_x(), Some(0));
    assert_eq!(p.ppm_y(), Some(1));
    assert_eq!(p.write_pixel((7, 8, 9), 0, 0), Err(PictureErr::PpmOutOfOrder));
    assert_eq!(p.write_pixel((7, 8, 9), 1, 1), Err(PictureErr::PpmOutOfOrder));
    assert_eq!(p.write_pixel((7, 8, 9), 1, 2), Err(PictureErr::ColumnBeyondWidth));
    assert_eq!(p.write_pixel((7, 8, 9), 2, 0), Err(PictureErr::RowBeyondHeight));
    assert_eq!(p.take_ppm_output(), b"1 2 3\n4 5 6\n".to_vec());
}

#[test]
fn ppm_rows_in_order() {
    let mut p = Picture::new(2, 2, 1, PictureType::Ppm).unwrap();
    p.take_ppm_output();
    assert_eq!(p.write_row(&vec![(1, 1, 1)], 0), Err(PictureErr::RowLength));
    assert_eq!(p.write_row(&vec![(1, 1, 1), (2, 2, 2)], 2), Err(PictureErr::RowBeyondHeight));
    assert_eq!(p.write_row(&vec![(1, 1, 1), (2, 2, 2)], 1), Err(PictureErr::PpmOutOfOrder));
    assert_eq!(p.write_row(&vec![(1, 1, 1), (2, 2, 2)], 0), Ok(()));
    assert_eq!(p.ppm_y(), Some(1));
    assert_eq!(p.ppm_x(), Some(0));
    assert_eq!(p.write_row(&vec![(3, 3, 3), (255, 0, 9)], 1), Ok(()));
    assert_eq!(p.ppm_y(), Some(2));
    assert_eq!(p.write_pixel((0, 0, 0), 0, 0), Err(PictureErr::PpmOutOfOrder));
    match p.into_data() {
        PictureData::Ppm { bytes } => assert_eq!(bytes, b"1 1 1\n2 2 2\n3 3 3\n255 0 9\n".to_vec()),
        _ => panic!("expected ppm data"),
    }
}

#[test]
fn rgb8_pixels_land_row_major() {
    let mut p = Picture::new(3, 2, 4, PictureType::Rgb8).unwrap();
    assert_eq!(p.ppm_x(), None);
    assert_eq!(p.ppm_y(), None);
    assert_eq!(p.max_level(), 255);
    assert_eq!(p.take_ppm_output(), Vec::<u8>::new());
    assert_eq!(p.write_pixel((10, 20, 30), 1, 2), Ok(()));
    assert_eq!(p.write_pixel((1, 2, 3), 0, 0), Ok(()));
    assert_eq!(p.write_pixel((1, 2, 3), 0, 3), Err(PictureErr::ColumnBeyondWidth));
    match p.into_data() {
        PictureData::Rgb8 { width, height, data } => {
            assert_eq!((width, height), (3, 2));
            let mut expect = vec![0u8; 18];
            expect[0..3].copy_from_slice(&[1, 2, 3]);
            expect[15..18].copy_from_slice(&[10, 20, 30]);
            assert_eq!(data, expect);
        }
        _ => panic!("expected rgb8 data"),
    }
}

#[test]
fn rgb16_rows_any_order() {
    let mut p = Picture::new(2, 2, 1, PictureType::Rgb16).unwrap();
    assert_eq!(p.max_level(), 65535);
    assert_eq!(p.write_row(&vec![(65535, 1, 2), (3, 4, 5)], 1), Ok(()));
    assert_eq!(p.write_row(&vec![(6, 7, 8), (9, 10, 11)], 0), Ok(()));
    assert_eq!(p.write_row(&vec![(6, 7, 8)], 0), Err(PictureErr::RowLength));
    match p.into_data() {
        PictureData::Rgb16 { width, height, data } => {
            assert_eq!((width, height), (2, 2));
            assert_eq!(data, vec![6, 7, 8, 9, 10, 11, 65535, 1, 2, 3, 4, 5]);
        }
        _ => panic!("expected rgb16 data"),
    }
}

#[test]
fn placeholder_material_is_inert() {
    let m = NoHit::new();
    assert!(!m.scatters());
}
