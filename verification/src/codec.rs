//! The calls into the `image`, `md5` and `url` crates.
//!
//! Nothing in this file is proved. Each function makes one outside call, and
//! its contract says of the result only that it is what the named function
//! gives for these arguments.

use crate::pixels::Pixel;
use vstd::prelude::*;

verus! {

/// `image::ImageError`, carried through as it is.
#[verifier::external_type_specification]
#[verifier::external_body]
pub struct ExImageError(image::ImageError);

/// The MD5 digest of a byte string, as `md5::compute` gives it.
pub uninterp spec fn md5_of(bytes: Seq<u8>) -> Seq<u8>;

/// What `image::load_from_memory_with_format` makes of a byte string read as
/// PNG and turned into eight-bit RGBA: the width, the height and the raw
/// bytes, or nothing where the bytes do not decode.
pub uninterp spec fn png_decoding(bytes: Seq<u8>) -> Option<(u32, u32, Seq<u8>)>;

/// The PNG file that `image::write_buffer_with_format` writes for raw
/// eight-bit RGBA bytes of the given shape, or nothing where it refuses.
pub uninterp spec fn png_encoding(width: u32, height: u32, raw: Seq<u8>) -> Option<Seq<u8>>;

/// What `image::Pixel::blend` leaves in the pixel `under` when `over` is
/// blended onto it.
pub uninterp spec fn blend_of(under: Pixel, over: Pixel) -> Pixel;

/// Whether a string is an absolute address, as `url::Url::parse` tells it.
pub uninterp spec fn is_url(text: Seq<char>) -> bool;

/// Calls `url::Url::parse` and tells whether it gave an address. Claimed:
/// that depends on the text alone.
#[verifier::external_body]
pub(crate) fn parses_as_url(text: &str) -> (ok: bool)
    ensures
        ok == is_url(text@),
{
    url::Url::parse(text).is_ok()
}

/// Calls `md5::compute`. Claimed: the digest depends on the bytes alone.
#[verifier::external_body]
pub(crate) fn md5_digest(bytes: &[u8]) -> (digest: Vec<u8>)
    ensures
        digest@ == md5_of(bytes@),
{
    md5::compute(bytes).0.to_vec()
}

/// Calls `image::load_from_memory_with_format` with the PNG format, then
/// `DynamicImage::into_rgba8`. Claimed: whether the bytes decode, and to
/// what, depends on the bytes alone. Nothing is claimed of how the raw
/// length relates to the shape.
#[verifier::external_body]
pub(crate) fn decode_png(bytes: &[u8]) -> (decoded: Result<(u32, u32, Vec<u8>), image::ImageError>)
    ensures
        match decoded {
            Ok((width, height, raw)) => png_decoding(bytes@) == Some((width, height, raw@)),
            Err(_) => png_decoding(bytes@) is None,
        },
{
    let img = image::load_from_memory_with_format(bytes, image::ImageFormat::Png)?.into_rgba8();
    Ok((img.width(), img.height(), img.into_raw()))
}

/// Calls `image::write_buffer_with_format` with the PNG format on an
/// in-memory writer. The encoder panics on a buffer whose length is not four
/// bytes for each pixel, so such a buffer is left out. Claimed: whether it
/// succeeds, and the bytes written, depend on the arguments alone.
#[verifier::external_body]
pub(crate) fn encode_png(width: u32, height: u32, raw: &[u8]) -> (encoded: Result<
    Vec<u8>,
    image::ImageError,
>)
    requires
        raw@.len() == 4 * (width as nat * height as nat),
    ensures
        match encoded {
            Ok(bytes) => png_encoding(width, height, raw@) == Some(bytes@),
            Err(_) => png_encoding(width, height, raw@) is None,
        },
{
    let mut out = std::io::Cursor::new(Vec::new());
    let rgba = image::ColorType::Rgba8;
    image::write_buffer_with_format(&mut out, raw, width, height, rgba, image::ImageFormat::Png)?;
    Ok(out.into_inner())
}

/// Calls `image::Pixel::blend` on two RGBA pixels. Claimed: the blended
/// pixel depends on the two pixels alone.
#[verifier::external_body]
pub(crate) fn blend(under: Pixel, over: Pixel) -> (out: Pixel)
    ensures
        out == blend_of(under, over),
{
    let mut px = image::Rgba([under.r, under.g, under.b, under.a]);
    image::Pixel::blend(&mut px, &image::Rgba([over.r, over.g, over.b, over.a]));
    Pixel { r: px.0[0], g: px.0[1], b: px.0[2], a: px.0[3] }
}

/// Renders an `image::ImageError` as text, through its `Display`. Nothing is
/// claimed of the text.
#[verifier::external_body]
pub(crate) fn image_error_text(error: &image::ImageError) -> (text: String) {
    error.to_string()
}

} // verus!
