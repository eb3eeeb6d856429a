//! Image ingest: turning the bytes of a captured file into a
//! `ScreenshotResult` — pixel dimensions from the image decoder, bytes
//! in transport form, and the absolute path they were read from.
//!
//! Reading the file is the caller's side effect; this module works on
//! the bytes.

use vstd::prelude::*;

use crate::codec::base64_of;
use crate::codec::encode_transport;
use crate::errors::ScreenshotError;
use crate::ScreenshotResult;

verus! {

/// The pixel dimensions the image decoder reports for a byte sequence,
/// or nothing when the bytes are not a decodable image. A pure
/// function of the bytes.
pub uninterp spec fn image_size_of(bytes: Seq<u8>) -> Option<(u32, u32)>;

#[verifier::external_type_specification]
#[verifier::external_body]
pub struct ExImageError(image::ImageError);

/// Relies on `image::load_from_memory` and `DynamicImage::width` /
/// `DynamicImage::height`: the format is guessed from the bytes alone,
/// so the reported dimensions are a pure function of the bytes, named
/// `image_size_of`; bytes that decode as no supported image give an
/// error.
#[verifier::external_body]
fn decode_image_dimensions(bytes: &[u8]) -> (r: Result<(u32, u32), image::ImageError>)
    ensures
        r is Ok <==> image_size_of(bytes@) is Some,
        r matches Ok(d) ==> image_size_of(bytes@) == Some(d),
{
    match image::load_from_memory(bytes) {
        Ok(img) => Ok((img.width(), img.height())),
        Err(e) => Err(e),
    }
}

/// Builds the capture result for image bytes read from `absolute_path`:
/// the decoded pixel dimensions, the bytes in transport form, and the
/// path itself. Bytes that are no decodable image give `DecodeFailed`.
pub fn build_screenshot_result(png_bytes: &Vec<u8>, absolute_path: String) -> (r: Result<
    ScreenshotResult,
    ScreenshotError,
>)
    ensures
        r is Ok <==> image_size_of(png_bytes@) is Some,
        r matches Ok(res) ==> {
            &&& image_size_of(png_bytes@) == Some((res.width as u32, res.height as u32))
            &&& res.data@ == base64_of(png_bytes@)
            &&& res.file_path@ == absolute_path@
        },
        r is Err ==> r == Err::<ScreenshotResult, ScreenshotError>(ScreenshotError::DecodeFailed),
{
    match decode_image_dimensions(png_bytes.as_slice()) {
        Ok(dims) => Ok(
            ScreenshotResult {
                width: dims.0 as usize,
                height: dims.1 as usize,
                data: encode_transport(png_bytes),
                file_path: absolute_path,
            },
        ),
        Err(_) => Err(ScreenshotError::DecodeFailed),
    }
}

} // verus!
