//! The tray icon: decoding the embedded PNG into RGBA pixels.
use vstd::prelude::*;
use image::GenericImageView;

verus! {

/// Decodes `bytes` with `image::load_from_memory`, then converts the image to RGBA
/// with `DynamicImage::to_rgba8` and `ImageBuffer::into_raw`, and takes its size from
/// `GenericImageView::dimensions`; an error becomes its `Display` text.
/// Claims only what holds of every outcome: the pixel buffer holds at least four bytes
/// for each of the `width * height` pixels (every `ImageBuffer` of the crate is built
/// through `from_raw`'s check of that bound, or allocated at exactly that size).
/// Not claimed: which bytes decode, the pixels, the size, or the error text. The
/// outcome is not a function of the bytes alone: `load_from_memory` first consults the
/// process-wide format detection and decoding hooks that any code may register. For
/// the same reason the buffer is not claimed to be exactly `4 * width * height` bytes
/// long: a registered decoder may report a larger `total_bytes`, and `from_raw` keeps
/// the larger buffer.
#[verifier::external_body]
fn decode_image(bytes: &[u8]) -> (r: Result<(Vec<u8>, u32, u32), String>)
    ensures
        r matches Ok((pixels, width, height)) ==> pixels@.len() >= 4 * width * height,
{
    match image::load_from_memory(bytes) {
        Ok(decoded) => {
            let (width, height) = decoded.dimensions();
            Ok((decoded.to_rgba8().into_raw(), width, height))
        },
        Err(error) => Err(error.to_string()),
    }
}

/// An image as RGBA pixels, ready to become the tray icon.
#[derive(Debug)]
pub struct IconImage {
    pub rgba: Vec<u8>,
    pub width: u32,
    pub height: u32,
}

/// The text that precedes a decoding error.
pub open spec fn icon_error_prefix() -> Seq<char> {
    "Unable to decode tray icon PNG: "@
}

/// The tray icon made of a decoding outcome: the decoded pixels, or the error text
/// after `icon_error_prefix()`.
pub open spec fn icon_for(decoded: Result<(Seq<u8>, u32, u32), Seq<char>>) -> Result<(Seq<u8>, u32, u32), Seq<char>> {
    match decoded {
        Ok(image) => Ok(image),
        Err(text) => Err(icon_error_prefix() + text),
    }
}

/// The model of a tray icon outcome.
pub open spec fn icon_outcome(r: Result<IconImage, String>) -> Result<(Seq<u8>, u32, u32), Seq<char>> {
    match r {
        Ok(icon) => Ok((icon.rgba@, icon.width, icon.height)),
        Err(message) => Err(message@),
    }
}

/// The tray icon made of a decoding outcome.
pub fn icon_from_decoded(decoded: Result<(Vec<u8>, u32, u32), String>) -> (r: Result<IconImage, String>)
    ensures
        icon_outcome(r) == icon_for(
            match decoded {
                Ok((pixels, width, height)) => Ok((pixels@, width, height)),
                Err(text) => Err(text@),
            },
        ),
{
    match decoded {
        Ok((rgba, width, height)) => Ok(IconImage { rgba, width, height }),
        Err(text) => Err(String::from_str("Unable to decode tray icon PNG: ").concat(text.as_str())),
    }
}

/// Decodes the tray icon from the bytes of its PNG file: the decoded pixels, or the
/// decoding error's text after `icon_error_prefix()`.
pub fn tray_icon_image(png: &[u8]) -> (r: Result<IconImage, String>)
    ensures
        r matches Ok(icon) ==> icon.rgba@.len() >= 4 * icon.width * icon.height,
        r matches Err(message) ==> {
            &&& message@.len() >= icon_error_prefix().len()
            &&& message@.subrange(0, icon_error_prefix().len() as int) == icon_error_prefix()
        },
{
    let decoded = decode_image(png);
    let r = icon_from_decoded(decoded);
    proof {
        if r is Err {
            let message = r->Err_0;
            assert(message@.subrange(0, icon_error_prefix().len() as int) =~= icon_error_prefix());
        }
    }
    r
}

} // verus!
