use vstd::prelude::*;

use crate::error::RenderError;

verus! {

#[verifier::external_type_specification]
#[verifier::external_body]
pub struct ExImageError(image::ImageError);

/// Whether `image::load_from_memory` decodes these bytes. Its limits are a
/// fixed default, so the answer depends on the bytes alone.
pub uninterp spec fn decodes(bytes: Seq<u8>) -> bool;

/// Width, height and RGBA8 pixels of the image these bytes decode to.
pub uninterp spec fn rgba8_of(bytes: Seq<u8>) -> (u32, u32, Seq<u8>);

/// Relies on `image::load_from_memory`, which decodes the bytes of an image
/// whose format it guesses from them or reports why it cannot, and on
/// `DynamicImage::to_rgba8`, which converts the decoded image into a freshly
/// allocated RGBA8 buffer of its own width and height, four bytes per pixel,
/// row after row.
#[verifier::external_body]
fn decode_rgba8(bytes: &[u8]) -> (r: Result<(u32, u32, Vec<u8>), image::ImageError>)
    ensures
        r is Ok <==> decodes(bytes@),
        r matches Ok((w, h, p)) ==> (w, h, p@) == rgba8_of(bytes@) && p@.len() == 4 * w * h,
{
    let buf = image::load_from_memory(bytes)?.to_rgba8();
    let (width, height) = buf.dimensions();
    Ok((width, height, buf.into_raw()))
}

/// How the texels reach the GPU texture: each row is `bytes_per_row` bytes,
/// and the one layer has `rows_per_image` rows.
#[derive(Clone, Copy, Debug, PartialEq, Eq, Structural)]
pub struct UploadLayout {
    pub bytes_per_row: u32,
    pub rows_per_image: u32,
}

/// A decoded RGBA8 image, ready to be copied into a 2D texture of its own
/// size.
#[derive(Debug)]
pub struct TextureImage {
    pub width: u32,
    pub height: u32,
    pub rgba: Vec<u8>,
    pub layout: UploadLayout,
}

impl TextureImage {
    /// The pixels fill the image exactly and the upload layout is tightly
    /// packed rows of four bytes per texel.
    pub open spec fn wf(&self) -> bool {
        &&& self.rgba@.len() == 4 * self.width * self.height
        &&& self.layout.bytes_per_row == 4 * self.width
        &&& self.layout.rows_per_image == self.height
    }

    /// A texture from `width` x `height` RGBA8 pixels. The row length in
    /// bytes must fit in `u32`; a wider image is refused.
    pub fn from_rgba8(width: u32, height: u32, rgba: Vec<u8>) -> (r: Result<
        TextureImage,
        RenderError,
    >)
        requires
            rgba@.len() == 4 * width * height,
        ensures
            r is Ok <==> 4 * width <= u32::MAX,
            match r {
                Ok(t) => t.wf() && t.width == width && t.height == height && t.rgba@ == rgba@,
                Err(e) => e == RenderError::ImageTooLarge,
            },
    {
        if width > u32::MAX / 4 {
            Err(RenderError::ImageTooLarge)
        } else {
            let layout = UploadLayout { bytes_per_row: 4 * width, rows_per_image: height };
            Ok(TextureImage { width, height, rgba, layout })
        }
    }

    /// Decodes the bytes of a compressed image into a texture of its own
    /// size holding its RGBA8 pixels. Bytes that do not decode give
    /// `ImageDecodeFailed`; an image too wide to upload gives `ImageTooLarge`.
    pub fn from_bytes(bytes: &[u8]) -> (r: Result<TextureImage, RenderError>)
        ensures
            !decodes(bytes@) ==> r == Err::<TextureImage, RenderError>(
                RenderError::ImageDecodeFailed,
            ),
            decodes(bytes@) ==> (r is Ok <==> 4 * rgba8_of(bytes@).0 <= u32::MAX),
            match r {
                Ok(t) => t.wf() && (t.width, t.height, t.rgba@) == rgba8_of(bytes@),
                Err(e) => e == RenderError::ImageDecodeFailed || e == RenderError::ImageTooLarge,
            },
    {
        match decode_rgba8(bytes) {
            Ok((width, height, rgba)) => TextureImage::from_rgba8(width, height, rgba),
            Err(_) => Err(RenderError::ImageDecodeFailed),
        }
    }
}

} // verus!
