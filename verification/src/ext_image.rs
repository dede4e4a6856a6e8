//! Trusted declarations for the `image` decoding crate.

use vstd::prelude::*;

verus! {

#[verifier::external_type_specification]
#[verifier::external_body]
pub struct ExImageError(image::ImageError);

/// What decoding a byte string as an image yields: `None` where the
/// bytes are not a valid image, else the width, the height and the
/// 8-bit RGBA pixel bytes in row-major order — a pure function of the
/// bytes.
pub uninterp spec fn decoded_rgba(bytes: Seq<u8>) -> Option<(u32, u32, Seq<u8>)>;

/// Relies on `image::load_from_memory` and `DynamicImage::to_rgba8`:
/// decodes the bytes and converts the pixels to 8-bit RGBA, four bytes
/// per pixel, so the pixel array covers width times height pixels
/// exactly.
#[verifier::external_body]
pub(crate) fn decode_rgba(bytes: &[u8]) -> (r: Result<(u32, u32, Vec<u8>), image::ImageError>)
    ensures
        match r {
            Ok((w, h, p)) => decoded_rgba(bytes@) == Some((w, h, p@)) && p@.len() == 4 * (
            w as int) * (h as int),
            Err(_) => decoded_rgba(bytes@) is None,
        },
{
    let img = image::load_from_memory(bytes)?.to_rgba8();
    let (w, h) = img.dimensions();
    Ok((w, h, img.into_raw()))
}

} // verus!
