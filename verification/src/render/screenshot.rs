use vstd::prelude::*;

use crate::math::constants::{SIMULATION_HEIGHT, SIMULATION_WIDTH};
use image::ImageEncoder;

verus! {

/// The error type of the `image` crate.
#[verifier::external_type_specification]
#[verifier::external_body]
pub struct ExImageError(image::ImageError);

/// Why no screenshot was made.
#[derive(Debug, Clone, Copy, PartialEq, Eq, Structural)]
pub enum ScreenshotError {
    /// The pixels are not three bytes for every cell of the addressable
    /// area.
    WrongLength,
    /// The encoder gave up.
    Encoding,
}

/// Bytes in a picture of the addressable area: red, green and blue for
/// every cell.
pub open spec fn screenshot_len() -> int {
    3 * SIMULATION_WIDTH * SIMULATION_HEIGHT
}

/// The PNG file that the `image` crate's encoder, as a new encoder is set,
/// writes for a picture of `width` by `height` pixels, given row by row with
/// three bytes per pixel.
pub uninterp spec fn png_encoding(width: u32, height: u32, pixels: Seq<u8>) -> Seq<u8>;

/// Calls `write_image` of the `image` crate's `PngEncoder` on a new encoder
/// that writes to memory, for eight-bit red, green and blue. The call panics
/// unless the pixels are three bytes for every pixel of the picture, which
/// is required here. What it writes depends on its arguments alone. Nothing
/// is promised about when it succeeds.
#[verifier::external_body]
fn write_rgb_png(pixels: &Vec<u8>, width: u32, height: u32) -> (written: Result<
    Vec<u8>,
    image::ImageError,
>)
    requires
        pixels@.len() == 3 * width * height,
    ensures
        written matches Ok(bytes) ==> bytes@ == png_encoding(width, height, pixels@),
{
    let mut data: Vec<u8> = Vec::new();
    let encoder = image::codecs::png::PngEncoder::new(&mut data);
    match encoder.write_image(pixels, width, height, image::ExtendedColorType::Rgb8) {
        Ok(()) => Ok(data),
        Err(error) => Err(error),
    }
}

/// What becomes of the encoder's answer: its bytes, or the library's own
/// word for its failure.
pub fn encoded_screenshot(written: Result<Vec<u8>, image::ImageError>) -> (file: Result<
    Vec<u8>,
    ScreenshotError,
>)
    ensures
        match written {
            Ok(bytes) => file == Ok::<Vec<u8>, ScreenshotError>(bytes),
            Err(_) => file == Err::<Vec<u8>, ScreenshotError>(ScreenshotError::Encoding),
        },
{
    match written {
        Ok(bytes) => Ok(bytes),
        Err(_) => Err(ScreenshotError::Encoding),
    }
}

/// The PNG file of a picture of the addressable area. The pixels are given
/// row by row with three bytes per cell; any other number of bytes is
/// turned down.
pub fn screenshot_png(pixels: &Vec<u8>) -> (file: Result<Vec<u8>, ScreenshotError>)
    ensures
        file == Err::<Vec<u8>, ScreenshotError>(ScreenshotError::WrongLength) <==> pixels@.len()
            != screenshot_len(),
        file matches Ok(bytes) ==> bytes@ == png_encoding(
            SIMULATION_WIDTH,
            SIMULATION_HEIGHT,
            pixels@,
        ),
{
    if pixels.len() as u64 != 3 * SIMULATION_WIDTH as u64 * SIMULATION_HEIGHT as u64 {
        return Err(ScreenshotError::WrongLength);
    }
    encoded_screenshot(write_rgb_png(pixels, SIMULATION_WIDTH, SIMULATION_HEIGHT))
}

} // verus!
