//! Decoding of encoded image bytes into 16-bit grayscale samples.
//!
//! The decoder itself is the `image` crate's; the library sees its result
//! through `decoded_luma16`, a name for the dimensions and row-major samples
//! that a given byte string decodes to. The format is taken from the bytes'
//! own signature, with TGA — the one common format without a signature —
//! as the fallback, so stamps and height fields stored as TGA still load.

use vstd::prelude::*;

verus! {

/// The 16-bit grayscale decoding of an encoded image: width, height and the
/// row-major samples, or nothing when the bytes are not a readable image of
/// their signature's format (or of TGA, when no signature matches). Decoding
/// depends on the bytes alone.
pub uninterp spec fn decoded_luma16(bytes: Seq<u8>) -> Option<(nat, nat, Seq<u16>)>;

/// Relies on `image::guess_format`, which matches the bytes against the
/// crate's built-in signature table and nothing else, and on
/// `image::load_from_memory_with_format` with a built-in format, which
/// dispatches straight to that format's decoder — neither consults the
/// crate's run-time extension registries, so the result is a function of the
/// bytes and the crate build alone. `DynamicImage::into_luma16` converts
/// pixel for pixel, and the resulting `ImageBuffer` holds exactly
/// `width * height` samples (the decoders allocate their buffers at that
/// size).
#[verifier::external_body]
pub(crate) fn decode_luma16(bytes: &Vec<u8>) -> (r: Option<(u32, u32, Vec<u16>)>)
    ensures
        match r {
            Some((w, h, pix)) => {
                &&& decoded_luma16(bytes@) == Some(((w as nat), (h as nat), pix@))
                &&& pix@.len() == (w as nat) * (h as nat)
            },
            None => decoded_luma16(bytes@) is None,
        },
{
    let format = image::guess_format(bytes).unwrap_or(image::ImageFormat::Tga);
    match image::load_from_memory_with_format(bytes, format) {
        Ok(img) => {
            let img = img.into_luma16();
            let (w, h) = img.dimensions();
            Some((w, h, img.into_raw()))
        }
        Err(_) => None,
    }
}

} // verus!
