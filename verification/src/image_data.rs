//! Decoded images: their size and their pixels as RGBA bytes.

use vstd::prelude::*;

use crate::asset_registry::AssetLoadError;

verus! {

/// An image of `width` by `height` pixels, four bytes (red, green, blue,
/// alpha) per pixel, row by row.
pub struct ImageData {
    pub width: u32,
    pub height: u32,
    pub rgba: Vec<u8>,
}

/// What `image` decodes from `bytes`, the contents of the file at `path`,
/// read in the format that the path's extension names, converted to eight
/// bit RGBA: the width, the height and the pixel bytes; `None` when the
/// extension names no format or the bytes do not decode in it.
pub uninterp spec fn decoded_rgba(bytes: Seq<u8>, path: Seq<char>) -> Option<(u32, u32, Seq<u8>)>;

/// Trusted: `image::load_from_memory_with_format`, decoding `bytes` in the
/// format that `image::ImageFormat::from_path` reads off the extension of
/// `path` (as opening the file with `image::ImageReader::open` would),
/// followed by `DynamicImage::to_rgba8` and `ImageBuffer::into_raw`. The
/// result depends on the bytes and the path alone; an image buffer holds
/// four bytes for each of its pixels. The error message is not stated.
#[verifier::external_body]
fn decode_rgba(bytes: &[u8], path: &str) -> (r: Result<ImageData, String>)
    ensures
        match r {
            Ok(d) => decoded_rgba(bytes@, path@) == Some((d.width, d.height, d.rgba@))
                && d.rgba@.len() == 4 * d.width * d.height,
            Err(_) => decoded_rgba(bytes@, path@) is None,
        },
{
    let format = image::ImageFormat::from_path(path).map_err(|err| err.to_string())?;
    let img = image::load_from_memory_with_format(bytes, format).map_err(|err| err.to_string())?;
    let rgba = img.to_rgba8();
    Ok(ImageData { width: rgba.width(), height: rgba.height(), rgba: rgba.into_raw() })
}

/// Decode `bytes`, the contents of the image file at `path`, in the format
/// its extension names. A file that does not decode is a failed load, with
/// the decoder's message.
pub fn decode_image(bytes: &[u8], path: &str) -> (r: Result<ImageData, AssetLoadError>)
    ensures
        match r {
            Ok(d) => decoded_rgba(bytes@, path@) == Some((d.width, d.height, d.rgba@))
                && d.rgba@.len() == 4 * d.width * d.height,
            Err(e) => decoded_rgba(bytes@, path@) is None && e is LoadFailed,
        },
{
    match decode_rgba(bytes, path) {
        Ok(d) => Ok(d),
        Err(msg) => Err(AssetLoadError::LoadFailed(msg)),
    }
}

} // verus!
