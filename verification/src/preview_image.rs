//! The image preview renderer: it decodes a PNG, JPEG, GIF or WebP source,
//! refuses empty or oversized images, and re-encodes the picture as a fresh
//! PNG, so that nothing of the source file but its pixels reaches the
//! preview.

use vstd::prelude::*;
use image::GenericImageView;

verus! {

/// The largest width or height of a source image, in pixels.
pub const MAX_IMAGE_DIMENSION_V1: u32 = 16_384;

#[verifier::external_type_specification]
#[verifier::external_body]
pub struct ExDynamicImage(image::DynamicImage);

/// The width and height of the picture that `bytes` decode to, when the
/// `image` crate recognises their built-in format by its magic bytes and
/// decodes them with its default limits.
pub uninterp spec fn decoded_dimensions(bytes: Seq<u8>) -> Option<(u32, u32)>;

/// The PNG file that the `image` crate writes for the picture decoded, as
/// above, from `bytes`, when writing succeeds.
pub uninterp spec fn png_reencoding(bytes: Seq<u8>) -> Option<Seq<u8>>;

/// A decoded source picture: its size, and the bytes it was decoded from.
pub struct DecodedImage {
    width: u32,
    height: u32,
    source: Ghost<Seq<u8>>,
    image: image::DynamicImage,
}

/// `image::guess_format`, then `ImageReader::with_format` and `decode`, with
/// `GenericImageView::dimensions`: the picture `bytes` hold in the built-in
/// format their magic bytes show, and its size. Only built-in signatures and
/// decoders are used, never the detection or decoding hooks a process may
/// register, so the outcome depends on the bytes alone.
#[verifier::external_body]
fn decode_image(bytes: &[u8]) -> (decoded: Option<DecodedImage>)
    ensures
        match decoded {
            Some(d) => decoded_dimensions(bytes@) == Some((d.width, d.height)) && d.source@
                == bytes@,
            None => decoded_dimensions(bytes@) is None,
        },
{
    let format = image::guess_format(bytes).ok()?;
    let image = image::ImageReader::with_format(std::io::Cursor::new(bytes), format).decode().ok()?;
    let (width, height) = image.dimensions();
    Some(DecodedImage { width, height, source: Ghost(bytes@), image })
}

/// `DynamicImage::write_to` with `ImageFormat::Png`: the picture as a PNG
/// file. The PNG encoder consults no hook, and the picture is the one
/// `decode_image` made from the source bytes, so the file depends on those
/// bytes alone.
#[verifier::external_body]
fn encode_png(decoded: &DecodedImage) -> (png: Option<Vec<u8>>)
    ensures
        match png {
            Some(bytes) => png_reencoding(decoded.source@) == Some(bytes@),
            None => png_reencoding(decoded.source@) is None,
        },
{
    let mut output = std::io::Cursor::new(Vec::new());
    decoded.image.write_to(&mut output, image::ImageFormat::Png).ok()?;
    Some(output.into_inner())
}

/// The format a source file claims to have.
#[derive(Clone, Copy, Debug, PartialEq, Eq, Structural)]
pub enum AttachmentPreviewSourceFormatV1 {
    Png,
    Jpeg,
    Gif,
    Webp,
    Pdf,
}

/// The kind of a preview.
#[derive(Clone, Copy, Debug, PartialEq, Eq, Structural)]
pub enum AttachmentPreviewKindV1 {
    Image,
}

/// The content type of a preview.
#[derive(Clone, Copy, Debug, PartialEq, Eq, Structural)]
pub enum AttachmentPreviewContentTypeV1 {
    Png,
}

/// Why a renderer gives no preview.
#[derive(Clone, Copy, Debug, PartialEq, Eq, Structural)]
pub enum AttachmentPreviewRendererErrorV1 {
    Unsupported,
    InvalidContent,
    SourceTooLarge,
    Failed,
    OutputTooLarge,
}

/// A source to render.
pub struct AttachmentPreviewRenderRequestV1<'a> {
    pub source_format: AttachmentPreviewSourceFormatV1,
    pub source_bytes: &'a [u8],
}

/// A rendered preview.
#[derive(Clone, Debug, PartialEq, Eq)]
pub struct AttachmentPreviewRenderResultV1 {
    pub preview_kind: AttachmentPreviewKindV1,
    pub content_type: AttachmentPreviewContentTypeV1,
    pub bytes: Vec<u8>,
    pub truncated: bool,
}

/// The limits of the preview contract: the largest source picture, in
/// pixels, and the largest preview file, in bytes.
#[derive(Clone, Copy, Debug, PartialEq, Eq, Structural)]
pub struct AttachmentPreviewImageLimitsV1 {
    pub max_image_pixels: u64,
    pub max_image_bytes: u64,
}

/// The image preview renderer.
#[derive(Clone, Copy, Debug, Default, PartialEq, Eq, Structural)]
pub struct AttachmentPreviewImageRendererV1;

/// Whether a claimed format is one the image renderer takes.
pub open spec fn is_image_format(format: AttachmentPreviewSourceFormatV1) -> bool {
    format == AttachmentPreviewSourceFormatV1::Png || format == AttachmentPreviewSourceFormatV1::Jpeg
        || format == AttachmentPreviewSourceFormatV1::Gif || format
        == AttachmentPreviewSourceFormatV1::Webp
}

/// Whether a picture of `width` by `height` may be rendered.
pub open spec fn size_is_allowed(width: u32, height: u32, limits: AttachmentPreviewImageLimitsV1) -> bool {
    &&& width != 0
    &&& height != 0
    &&& width <= MAX_IMAGE_DIMENSION_V1
    &&& height <= MAX_IMAGE_DIMENSION_V1
    &&& width * height <= limits.max_image_pixels
}

/// What rendering `bytes` claimed as `format` gives: the PNG bytes of the
/// preview, or the reason there is none.
pub open spec fn render_outcome(
    format: AttachmentPreviewSourceFormatV1,
    bytes: Seq<u8>,
    limits: AttachmentPreviewImageLimitsV1,
) -> Result<Seq<u8>, AttachmentPreviewRendererErrorV1> {
    if !is_image_format(format) {
        Err(AttachmentPreviewRendererErrorV1::Unsupported)
    } else {
        match decoded_dimensions(bytes) {
            None => Err(AttachmentPreviewRendererErrorV1::InvalidContent),
            Some((width, height)) => if !size_is_allowed(width, height, limits) {
                Err(AttachmentPreviewRendererErrorV1::SourceTooLarge)
            } else {
                match png_reencoding(bytes) {
                    None => Err(AttachmentPreviewRendererErrorV1::Failed),
                    Some(png) => if png.len() == 0 || png.len() > limits.max_image_bytes {
                        Err(AttachmentPreviewRendererErrorV1::OutputTooLarge)
                    } else {
                        Ok(png)
                    },
                }
            },
        }
    }
}

/// Whether a picture of `width` by `height` may be rendered under `limits`.
pub fn image_size_is_allowed(width: u32, height: u32, limits: &AttachmentPreviewImageLimitsV1) -> (allowed: bool)
    ensures
        allowed == size_is_allowed(width, height, *limits),
{
    assert((width as int) * (height as int) <= u64::MAX) by (nonlinear_arith)
        requires
            width <= u32::MAX,
            height <= u32::MAX,
    ;
    let pixels = (width as u64) * (height as u64);
    !(width == 0 || height == 0 || width > MAX_IMAGE_DIMENSION_V1 || height > MAX_IMAGE_DIMENSION_V1
        || pixels > limits.max_image_pixels)
}

impl AttachmentPreviewImageRendererV1 {
    /// Renders a preview of `request` under `limits`.
    pub fn render(
        &self,
        request: AttachmentPreviewRenderRequestV1<'_>,
        limits: &AttachmentPreviewImageLimitsV1,
    ) -> (result: Result<AttachmentPreviewRenderResultV1, AttachmentPreviewRendererErrorV1>)
        ensures
            match render_outcome(request.source_format, request.source_bytes@, *limits) {
                Ok(png) => result matches Ok(r) && r.bytes@ == png && r.preview_kind
                    == AttachmentPreviewKindV1::Image && r.content_type
                    == AttachmentPreviewContentTypeV1::Png && !r.truncated,
                Err(e) => result == Err::<AttachmentPreviewRenderResultV1, _>(e),
            },
    {
        let format = request.source_format;
        if !(format == AttachmentPreviewSourceFormatV1::Png || format
            == AttachmentPreviewSourceFormatV1::Jpeg || format == AttachmentPreviewSourceFormatV1::Gif
            || format == AttachmentPreviewSourceFormatV1::Webp) {
            return Err(AttachmentPreviewRendererErrorV1::Unsupported);
        }
        let decoded = match decode_image(request.source_bytes) {
            Some(d) => d,
            None => return Err(AttachmentPreviewRendererErrorV1::InvalidContent),
        };
        if !image_size_is_allowed(decoded.width, decoded.height, limits) {
            return Err(AttachmentPreviewRendererErrorV1::SourceTooLarge);
        }
        let bytes = match encode_png(&decoded) {
            Some(b) => b,
            None => return Err(AttachmentPreviewRendererErrorV1::Failed),
        };
        if bytes.len() == 0 || bytes.len() as u64 > limits.max_image_bytes {
            return Err(AttachmentPreviewRendererErrorV1::OutputTooLarge);
        }
        Ok(
            AttachmentPreviewRenderResultV1 {
                preview_kind: AttachmentPreviewKindV1::Image,
                content_type: AttachmentPreviewContentTypeV1::Png,
                bytes,
                truncated: false,
            },
        )
    }
}

/// Law: only pixels within the limits reach a preview. A preview is made
/// only from a source claimed as PNG, JPEG, GIF or WebP that decodes to a
/// non-empty picture of at most 16384 pixels a side and at most
/// `max_image_pixels` pixels, and it is the non-empty PNG re-encoding of that
/// picture, at most `max_image_bytes` long. Any other claimed format is
/// `Unsupported`, whatever the bytes.
pub proof fn lemma_previews_stay_within_limits(
    format: AttachmentPreviewSourceFormatV1,
    bytes: Seq<u8>,
    limits: AttachmentPreviewImageLimitsV1,
)
    ensures
        render_outcome(format, bytes, limits) matches Ok(png) ==> {
            &&& format == AttachmentPreviewSourceFormatV1::Png || format == AttachmentPreviewSourceFormatV1::Jpeg
                || format == AttachmentPreviewSourceFormatV1::Gif || format == AttachmentPreviewSourceFormatV1::Webp
            &&& decoded_dimensions(bytes) matches Some((w, h)) && 0 < w <= 16384 && 0 < h <= 16384 && w * h
                <= limits.max_image_pixels
            &&& png_reencoding(bytes) == Some(png)
            &&& 0 < png.len() <= limits.max_image_bytes
        },
        !(format == AttachmentPreviewSourceFormatV1::Png || format == AttachmentPreviewSourceFormatV1::Jpeg
            || format == AttachmentPreviewSourceFormatV1::Gif || format == AttachmentPreviewSourceFormatV1::Webp)
            ==> render_outcome(format, bytes, limits) == Err::<Seq<u8>, AttachmentPreviewRendererErrorV1>(
            AttachmentPreviewRendererErrorV1::Unsupported,
        ),
{
}

} // verus!
