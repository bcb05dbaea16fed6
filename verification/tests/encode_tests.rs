use windows_icons::encode::{
    icon_file_to_base64, icon_file_to_image, image_from_decoded, image_to_base64, image_to_png,
    to_base64,
};
use windows_icons::error::{ErrorKind, IconError};
use windows_icons::rgba::RgbaImage;

fn sample(width: u32, height: u32) -> RgbaImage {
    let mut pixels = Vec::new();
    for i in 0..(4 * width * height) {
        pixels.push((i * 37 % 251) as u8);
    }
    RgbaImage::from_raw(width, height, pixels).unwrap()
}

#[test]
fn base64_writes_the_vectors_of_the_standard() {
    assert_eq!(to_base64(b""), Ok(String::new()));
    assert_eq!(to_base64(b"f"), Ok("Zg==".to_string()));
    assert_eq!(to_base64(b"fo"), Ok("Zm8=".to_string()));
    assert_eq!(to_base64(b"foo"), Ok("Zm9v".to_string()));
    assert_eq!(to_base64(b"foob"), Ok("Zm9vYg==".to_string()));
    assert_eq!(to_base64(b"fooba"), Ok("Zm9vYmE=".to_string()));
    assert_eq!(to_base64(b"foobar"), Ok("Zm9vYmFy".to_string()));
    assert_eq!(to_base64(b"hello world~"), Ok("aGVsbG8gd29ybGR+".to_string()));
}

#[test]
fn base64_uses_the_last_two_digits_of_its_alphabet() {
    assert_eq!(to_base64(&[0xFB, 0xFF]), Ok("+/8=".to_string()));
    assert_eq!(to_base64(&[0xFF, 0xFF, 0xFF]), Ok("////".to_string()));
    assert_eq!(to_base64(&[0, 0, 0]), Ok("AAAA".to_string()));
}

#[test]
fn base64_takes_four_characters_for_each_three_bytes() {
    for count in 0..20usize {
        let bytes = vec![0xA5u8; count];
        assert_eq!(to_base64(&bytes).unwrap().len(), 4 * ((count + 2) / 3));
    }
}

#[test]
fn the_bytes_of_a_file_are_written_as_they_are() {
    assert_eq!(icon_file_to_base64(&[0x89, b'P', b'N', b'G']), Ok("iVBORw==".to_string()));
}

#[test]
fn an_image_is_encoded_as_a_png_file() {
    let bytes = image_to_png(&sample(3, 2)).unwrap();
    assert_eq!(&bytes[..8], b"\x89PNG\r\n\x1a\n");
    let decoded = image::load_from_memory(&bytes).unwrap();
    assert_eq!(decoded.color(), image::ColorType::Rgba8);
    assert_eq!((decoded.width(), decoded.height()), (3, 2));
}

#[test]
fn encoding_and_decoding_gives_the_image_back() {
    for (width, height) in [(1u32, 1u32), (3, 2), (16, 16), (5, 31), (64, 48)] {
        let image = sample(width, height);
        let bytes = image_to_png(&image).unwrap();
        let decoded = icon_file_to_image(&bytes).unwrap();
        assert_eq!(decoded.width(), width);
        assert_eq!(decoded.height(), height);
        assert_eq!(decoded.pixels(), image.pixels());
    }
}

#[test]
fn encoding_is_the_same_every_time() {
    assert_eq!(image_to_png(&sample(7, 5)), image_to_png(&sample(7, 5)));
}

#[test]
fn an_image_is_given_out_as_its_png_file_in_base64() {
    let image = sample(4, 4);
    let png = image_to_png(&image).unwrap();
    assert_eq!(image_to_base64(&image), to_base64(&png));
    assert!(image_to_base64(&image).unwrap().starts_with("iVBORw0KGgo"));
}

#[test]
fn an_image_without_pixels_cannot_be_encoded() {
    let empty = RgbaImage::from_raw(0, 0, vec![]).unwrap();
    assert_eq!(image_to_png(&empty), Err(IconError::EncodingFailed));
    assert_eq!(image_to_base64(&empty), Err(IconError::EncodingFailed));
    let flat = RgbaImage::from_raw(5, 0, vec![]).unwrap();
    assert_eq!(image_to_png(&flat), Err(IconError::EncodingFailed));
}

#[test]
fn bytes_that_are_no_image_cannot_be_decoded() {
    assert_eq!(icon_file_to_image(b"").err(), Some(IconError::DecodingFailed));
    assert_eq!(icon_file_to_image(b"not an image").err(), Some(IconError::DecodingFailed));
    assert_eq!(icon_file_to_image(b"\x89PNG\r\n\x1a\n").err(), Some(IconError::DecodingFailed));
    assert_eq!(IconError::DecodingFailed.kind(), ErrorKind::MalformedInput);
}

#[test]
fn a_decoded_image_of_another_colour_type_becomes_rgba() {
    let mut out = std::io::Cursor::new(Vec::new());
    image::write_buffer_with_format(
        &mut out,
        &[10, 20, 30, 40, 50, 60],
        2,
        1,
        image::ExtendedColorType::Rgb8,
        image::ImageFormat::Png,
    )
    .unwrap();
    let decoded = icon_file_to_image(&out.into_inner()).unwrap();
    assert_eq!((decoded.width(), decoded.height()), (2, 1));
    assert_eq!(decoded.into_raw(), vec![10, 20, 30, 255, 40, 50, 60, 255]);
}

#[test]
fn an_icon_file_is_decoded() {
    let image = sample(16, 16);
    let mut out = std::io::Cursor::new(Vec::new());
    image::write_buffer_with_format(
        &mut out,
        image.pixels(),
        16,
        16,
        image::ExtendedColorType::Rgba8,
        image::ImageFormat::Ico,
    )
    .unwrap();
    let decoded = icon_file_to_image(&out.into_inner()).unwrap();
    assert_eq!((decoded.width(), decoded.height()), (16, 16));
    assert_eq!(decoded.pixels(), image.pixels());
}

#[test]
fn what_a_decoder_gave_is_held_to_four_bytes_for_each_pixel() {
    let image = image_from_decoded(Some((1, 2, vec![1, 2, 3, 4, 5, 6, 7, 8]))).unwrap();
    assert_eq!((image.width(), image.height()), (1, 2));
    assert_eq!(image.into_raw(), vec![1, 2, 3, 4, 5, 6, 7, 8]);
    assert_eq!(image_from_decoded(Some((1, 2, vec![0; 7]))).err(), Some(IconError::ImageSizeMismatch));
    assert_eq!(image_from_decoded(Some((1, 2, vec![0; 9]))).err(), Some(IconError::ImageSizeMismatch));
    assert_eq!(image_from_decoded(None).err(), Some(IconError::DecodingFailed));
}
