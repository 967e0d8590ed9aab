//! Turning an encoded image into a raster.

use crate::raster::Raster;
use image::ImageReader;
use std::io::Cursor;
use vstd::prelude::*;

verus! {

/// A byte buffer could not be turned into a raster: its format was not
/// recognised, or its payload is corrupt or truncated.
#[derive(Clone, Debug, PartialEq, Eq)]
pub struct DecodeError {
    /// What went wrong, for a human reader.
    pub message: String,
}

/// Calls `image::ImageReader` on an in-memory buffer: `new`, `with_guessed_format`
/// (the format is inferred from the leading bytes), `decode`, and then
/// `DynamicImage::to_rgb8`, which drops alpha and narrows every pixel to three
/// 8-bit samples. Either failure comes back as the text of the crate's error.
///
/// Nothing is claimed of the outcome: the caller validates the raster it gets.
#[verifier::external_body]
fn decode_rgb8(data: &[u8]) -> (out: Result<Raster, String>) {
    let reader = ImageReader::new(Cursor::new(data)).with_guessed_format().map_err(
        |e| e.to_string(),
    )?;
    let rgb = reader.decode().map_err(|e| e.to_string())?.to_rgb8();
    Ok(Raster { width: rgb.width(), height: rgb.height(), pixels: rgb.into_raw() })
}

/// Decodes an encoded image, whatever its container format, into an RGB raster.
///
/// Whether a buffer decodes is the decoder's decision; every raster that comes
/// back has exactly one RGB triple per pixel position.
pub fn load_image(data: &[u8]) -> (out: Result<Raster, DecodeError>)
    ensures
        out matches Ok(img) ==> img.wf(),
{
    accept_decoded(decode_rgb8(data))
}

/// The message of the failure that stands for a decoded buffer whose length
/// does not match its dimensions.
pub open spec fn mismatch_message() -> Seq<char> {
    "decoded pixel buffer does not match the image dimensions"@
}

/// Turns what the decoder handed back into the result of loading. A failure
/// keeps the decoder's message. A raster is accepted, unchanged, exactly when
/// it holds three samples for each of its pixel positions; any other buffer is
/// a decoding failure of its own.
pub fn accept_decoded(decoded: Result<Raster, String>) -> (out: Result<Raster, DecodeError>)
    ensures
        match decoded {
            Err(message) => out == Err::<Raster, DecodeError>(DecodeError { message }),
            Ok(img) => if img.wf() {
                out == Ok::<Raster, DecodeError>(img)
            } else {
                out matches Err(e) && e.message@ == mismatch_message()
            },
        },
{
    match decoded {
        Err(message) => Err(DecodeError { message }),
        Ok(img) => match Raster::new(img.width, img.height, img.pixels) {
            Some(accepted) => Ok(accepted),
            None => Err(
                DecodeError {
                    message: "decoded pixel buffer does not match the image dimensions".to_owned(),
                },
            ),
        },
    }
}

} // verus!
