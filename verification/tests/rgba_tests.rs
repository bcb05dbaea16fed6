use windows_icons::rgba::{bgra_to_rgba, cells_to_rgba, RgbaImage};

#[test]
fn one_pixel_is_remapped_from_bgra_to_rgba() {
    assert_eq!(bgra_to_rgba(&[10, 20, 30, 40]), vec![30, 20, 10, 40]);
}

#[test]
fn every_pixel_is_remapped_in_its_place() {
    let bgra = [1, 2, 3, 4, 5, 6, 7, 8, 9, 10, 11, 12];
    assert_eq!(bgra_to_rgba(&bgra), vec![3, 2, 1, 4, 7, 6, 5, 8, 11, 10, 9, 12]);
}

#[test]
fn remapping_keeps_alpha_and_green() {
    let out = bgra_to_rgba(&[0, 255, 0, 128]);
    assert_eq!(out[1], 255);
    assert_eq!(out[3], 128);
}

#[test]
fn remapping_drops_bytes_after_the_last_whole_pixel() {
    assert_eq!(bgra_to_rgba(&[1, 2, 3, 4, 5, 6]), vec![3, 2, 1, 4]);
    assert_eq!(bgra_to_rgba(&[1, 2, 3]), Vec::<u8>::new());
    assert_eq!(bgra_to_rgba(&[]), Vec::<u8>::new());
}

#[test]
fn remapping_twice_gives_the_pixels_back() {
    let bgra = vec![1u8, 2, 3, 4, 250, 251, 252, 253];
    assert_eq!(bgra_to_rgba(&bgra_to_rgba(&bgra)), bgra);
}

#[test]
fn remapping_once_is_not_the_identity_where_blue_and_red_differ() {
    assert_ne!(bgra_to_rgba(&[1, 2, 3, 4]), vec![1, 2, 3, 4]);
}

#[test]
fn cells_hold_blue_in_their_least_significant_byte() {
    // 0xAARRGGBB
    assert_eq!(cells_to_rgba(&[0x40_30_20_10]), vec![0x30, 0x20, 0x10, 0x40]);
    assert_eq!(
        cells_to_rgba(&[0xFF_00_00_FF, 0x00_FF_00_00]),
        vec![0x00, 0x00, 0xFF, 0xFF, 0xFF, 0x00, 0x00, 0x00]
    );
    assert_eq!(cells_to_rgba(&[]), Vec::<u8>::new());
}

#[test]
fn cells_agree_with_the_bytes_of_little_endian_cells() {
    let cells = [0x01_02_03_04u32, 0xA0_B0_C0_D0, 0, u32::MAX, 0x80_00_00_01];
    let mut bytes = Vec::new();
    for cell in cells {
        bytes.extend_from_slice(&cell.to_le_bytes());
    }
    assert_eq!(cells_to_rgba(&cells), bgra_to_rgba(&bytes));
}

#[test]
fn an_image_takes_exactly_four_bytes_for_each_pixel() {
    let image = RgbaImage::from_raw(2, 3, vec![7; 24]).unwrap();
    assert_eq!(image.width(), 2);
    assert_eq!(image.height(), 3);
    assert_eq!(image.pixels().len(), 24);
    assert_eq!(image.into_raw(), vec![7; 24]);
}

#[test]
fn an_image_refuses_a_buffer_of_another_length() {
    assert!(RgbaImage::from_raw(2, 3, vec![0; 23]).is_none());
    assert!(RgbaImage::from_raw(2, 3, vec![0; 25]).is_none());
    assert!(RgbaImage::from_raw(1, 1, vec![]).is_none());
    assert!(RgbaImage::from_raw(u32::MAX, u32::MAX, vec![0; 4]).is_none());
}

#[test]
fn an_image_without_pixels_has_an_empty_buffer() {
    let image = RgbaImage::from_raw(0, 5, vec![]).unwrap();
    assert_eq!(image.width(), 0);
    assert_eq!(image.height(), 5);
    assert!(image.pixels().is_empty());
}
