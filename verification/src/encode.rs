//! Images as bytes and as text: encoding an RGBA image as PNG, decoding the
//! bytes of an image file, and writing bytes as base64.

use crate::error::IconError;
use crate::rgba::{ImageModel, RgbaImage};
use base64::Engine;
use vstd::prelude::*;

verus! {

/// The character that writes a number below 64 in the base64 alphabet:
/// the capital letters, the small letters, the digits, `+` and `/`.
pub open spec fn base64_digit(v: int) -> char {
    if v < 26 {
        (65 + v) as char
    } else if v < 52 {
        (97 + (v - 26)) as char
    } else if v < 62 {
        (48 + (v - 52)) as char
    } else if v == 62 {
        '+'
    } else {
        '/'
    }
}

/// The text of `bytes` in base64 with padding: each three bytes are read as
/// one number of 24 bits and written as four digits of six bits, the most
/// significant first; one or two bytes that are left are filled up with zero
/// bits, and `=` stands for each digit that holds none of their bits.
pub open spec fn base64_standard(bytes: Seq<u8>) -> Seq<char>
    decreases bytes.len(),
{
    if bytes.len() == 0 {
        Seq::empty()
    } else if bytes.len() == 1 {
        let n = bytes[0] as int * 65536;
        seq![base64_digit(n / 262144), base64_digit(n / 4096 % 64), '=', '=']
    } else if bytes.len() == 2 {
        let n = bytes[0] as int * 65536 + bytes[1] as int * 256;
        seq![
            base64_digit(n / 262144),
            base64_digit(n / 4096 % 64),
            base64_digit(n / 64 % 64),
            '=',
        ]
    } else {
        let n = bytes[0] as int * 65536 + bytes[1] as int * 256 + bytes[2] as int;
        seq![
            base64_digit(n / 262144),
            base64_digit(n / 4096 % 64),
            base64_digit(n / 64 % 64),
            base64_digit(n % 64),
        ] + base64_standard(bytes.skip(3))
    }
}

/// The number of characters that `count` bytes take in base64 with padding.
pub open spec fn base64_length(count: nat) -> nat {
    4 * ((count + 2) / 3)
}

/// The text of `count` bytes in base64 has four characters for each three
/// bytes, the last three counted in full.
pub proof fn lemma_base64_length(bytes: Seq<u8>)
    ensures
        base64_standard(bytes).len() == base64_length(bytes.len()),
    decreases bytes.len(),
{
    if bytes.len() >= 3 {
        lemma_base64_length(bytes.skip(3));
    }
}

/// Calls `Engine::encode` of the crate base64 on its engine
/// `general_purpose::STANDARD`: the standard alphabet, with padding. The
/// contract states the encoding. The call panics where the length of the
/// text does not fit `usize`, which `requires` leaves out.
#[verifier::external_body]
fn base64_encode(bytes: &[u8]) -> (text: String)
    requires
        base64_length(bytes@.len()) <= usize::MAX,
    ensures
        text@ == base64_standard(bytes@),
{
    base64::engine::general_purpose::STANDARD.encode(bytes)
}

/// Writes `bytes` as base64 with padding.
pub fn to_base64(bytes: &[u8]) -> (r: Result<String, IconError>)
    ensures
        match r {
            Ok(text) => text@ == base64_standard(bytes@) && base64_length(bytes@.len())
                <= usize::MAX,
            Err(e) => e == IconError::InputTooLong && base64_length(bytes@.len()) > usize::MAX,
        },
{
    let extra: usize = if bytes.len() % 3 > 0 {
        1
    } else {
        0
    };
    let groups: usize = bytes.len() / 3 + extra;
    if groups > usize::MAX / 4 {
        return Err(IconError::InputTooLong);
    }
    Ok(base64_encode(bytes))
}

/// The bytes of the PNG file that the crate image writes for an image of
/// `width` by `height` pixels with the RGBA bytes `pixels`, or `None` where
/// it writes none.
pub uninterp spec fn png_of(width: u32, height: u32, pixels: Seq<u8>) -> Option<Seq<u8>>;

/// Calls `write_buffer_with_format` of the crate image with the colour type
/// `Rgba8` and the format `Png`, on a buffer in memory. What it writes is a
/// function of the dimensions and the bytes alone; it is not stated here, it
/// has the name `png_of`. The call panics where the buffer does not hold
/// four bytes for each pixel, which `requires` leaves out.
#[verifier::external_body]
fn png_encode(width: u32, height: u32, pixels: &[u8]) -> (r: Option<Vec<u8>>)
    requires
        pixels@.len() == 4 * width * height,
    ensures
        match r {
            Some(bytes) => png_of(width, height, pixels@) == Some(bytes@),
            None => png_of(width, height, pixels@) is None,
        },
{
    let mut out = std::io::Cursor::new(Vec::new());
    let color = image::ExtendedColorType::Rgba8;
    let format = image::ImageFormat::Png;
    match image::write_buffer_with_format(&mut out, pixels, width, height, color, format) {
        Ok(()) => Some(out.into_inner()),
        Err(_) => None,
    }
}

/// Calls `load_from_memory` of the crate image, and `to_rgba8` on the image
/// that it gives: the width, the height and the buffer of the decoded image,
/// or `None` where the bytes could not be decoded. Nothing is claimed of the
/// result: the format is guessed with the help of what the process has
/// registered with the crate.
#[verifier::external_body]
fn decode_rgba(bytes: &[u8]) -> (r: Option<(u32, u32, Vec<u8>)>)
{
    match image::load_from_memory(bytes) {
        Ok(decoded) => {
            let rgba = decoded.to_rgba8();
            Some((rgba.width(), rgba.height(), rgba.into_raw()))
        },
        Err(_) => None,
    }
}

/// The image that a decoder's result stands for: the failure to decode
/// where it gave nothing, and the failure of the size where its buffer does
/// not hold exactly four bytes for each pixel.
pub open spec fn image_of_decoded(decoded: Option<(u32, u32, Seq<u8>)>) -> Result<
    ImageModel,
    IconError,
> {
    match decoded {
        None => Err(IconError::DecodingFailed),
        Some((width, height, pixels)) => if pixels.len() == 4 * width * height {
            Ok(ImageModel { width: width as nat, height: height as nat, pixels })
        } else {
            Err(IconError::ImageSizeMismatch)
        },
    }
}

/// Makes the image from what a decoder gave.
pub fn image_from_decoded(decoded: Option<(u32, u32, Vec<u8>)>) -> (r: Result<RgbaImage, IconError>)
    ensures
        match r {
            Ok(image) => image_of_decoded(
                match decoded {
                    Some((w, h, p)) => Some((w, h, p@)),
                    None => None,
                },
            ) == Ok::<ImageModel, IconError>(image@),
            Err(e) => image_of_decoded(
                match decoded {
                    Some((w, h, p)) => Some((w, h, p@)),
                    None => None,
                },
            ) == Err::<ImageModel, IconError>(e),
        },
{
    match decoded {
        None => Err(IconError::DecodingFailed),
        Some((width, height, pixels)) => match RgbaImage::from_raw(width, height, pixels) {
            Some(image) => Ok(image),
            None => Err(IconError::ImageSizeMismatch),
        },
    }
}

/// Decodes the bytes of an image file into an RGBA image. Whether the bytes
/// can be decoded is the decoder's to say; an image that comes back holds
/// exactly four bytes for each of its pixels.
pub fn icon_file_to_image(bytes: &[u8]) -> (r: Result<RgbaImage, IconError>)
    ensures
        match r {
            Ok(image) => image@.well_formed(),
            Err(e) => e == IconError::DecodingFailed || e == IconError::ImageSizeMismatch,
        },
{
    let decoded = decode_rgba(bytes);
    image_from_decoded(decoded)
}

/// Writes the bytes of an image file as base64, as they are.
pub fn icon_file_to_base64(bytes: &[u8]) -> (r: Result<String, IconError>)
    ensures
        match r {
            Ok(text) => text@ == base64_standard(bytes@) && base64_length(bytes@.len())
                <= usize::MAX,
            Err(e) => e == IconError::InputTooLong && base64_length(bytes@.len()) > usize::MAX,
        },
{
    to_base64(bytes)
}

/// The text that an image is given out as: its PNG file in base64, or the
/// reason why there is none.
pub open spec fn text_of_image(image: ImageModel) -> Result<Seq<char>, IconError> {
    match png_of(image.width as u32, image.height as u32, image.pixels) {
        None => Err(IconError::EncodingFailed),
        Some(bytes) => if base64_length(bytes.len()) > usize::MAX {
            Err(IconError::InputTooLong)
        } else {
            Ok(base64_standard(bytes))
        },
    }
}

/// Encodes an image as a PNG file.
pub fn image_to_png(image: &RgbaImage) -> (r: Result<Vec<u8>, IconError>)
    ensures
        match r {
            Ok(bytes) => png_of(image@.width as u32, image@.height as u32, image@.pixels) == Some(
                bytes@,
            ),
            Err(e) => e == IconError::EncodingFailed && png_of(
                image@.width as u32,
                image@.height as u32,
                image@.pixels,
            ) is None,
        },
{
    let pixels = image.pixels();
    match png_encode(image.width(), image.height(), pixels.as_slice()) {
        Some(bytes) => Ok(bytes),
        None => Err(IconError::EncodingFailed),
    }
}

/// Encodes an image as a PNG file and writes the file as base64.
pub fn image_to_base64(image: &RgbaImage) -> (r: Result<String, IconError>)
    ensures
        match r {
            Ok(text) => text_of_image(image@) == Ok::<Seq<char>, IconError>(text@),
            Err(e) => text_of_image(image@) == Err::<Seq<char>, IconError>(e),
        },
{
    match image_to_png(image) {
        Ok(bytes) => to_base64(bytes.as_slice()),
        Err(e) => Err(e),
    }
}

} // verus!
