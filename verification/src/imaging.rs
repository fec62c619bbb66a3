//! The image crate and the ASCII-art renderer, seen from verified code.

use vstd::prelude::*;

verus! {

/// A decoded picture of the image crate; its pixels are not seen here.
#[verifier::external_type_specification]
#[verifier::external_body]
pub struct ExDynamicImage(image::DynamicImage);

/// An error of the image crate while decoding or encoding.
#[verifier::external_type_specification]
#[verifier::external_body]
pub struct ExImageError(image::ImageError);

/// A path of the standard library.
#[verifier::external_type_specification]
#[verifier::external_body]
pub struct ExPathBuf(std::path::PathBuf);

/// What `image::load_from_memory` gives for these bytes. It guesses the
/// format from the leading bytes and decodes with it under the default
/// limits, so the result depends on the bytes alone.
pub uninterp spec fn image_from_memory(data: Seq<u8>) -> Result<image::DynamicImage, image::ImageError>;

/// Calls `image::load_from_memory`. Claimed: the result is
/// `image_from_memory` of the bytes.
#[verifier::external_body]
pub(crate) fn load_image(data: &[u8]) -> (res: Result<image::DynamicImage, image::ImageError>)
    ensures
        res == image_from_memory(data@),
{
    image::load_from_memory(data)
}

/// What `image::load_from_memory_with_format` gives for these bytes read
/// as JPEG; it depends on the bytes alone.
pub uninterp spec fn jpeg_image(data: Seq<u8>) -> Result<image::DynamicImage, image::ImageError>;

/// Calls `image::load_from_memory_with_format` with `ImageFormat::Jpeg`.
/// Claimed: the result is `jpeg_image` of the bytes.
#[verifier::external_body]
pub(crate) fn load_jpeg(data: &[u8]) -> (res: Result<image::DynamicImage, image::ImageError>)
    ensures
        res == jpeg_image(data@),
{
    image::load_from_memory_with_format(data, image::ImageFormat::Jpeg)
}

/// What `image::io::Reader` gives for these bytes when its format is set
/// from the path's extension as `Reader::open` sets it
/// (`ImageFormat::from_path`, left unset where the extension names no
/// format, so that decoding fails). It depends on the bytes and the path.
pub uninterp spec fn image_in_path_format(data: Seq<u8>, path: std::path::PathBuf) -> Result<
    image::DynamicImage,
    image::ImageError,
>;

/// Decodes the bytes as `image::io::Reader::open(path)?.decode()` decodes
/// the file at `path`: a `Reader` over the bytes, with the format that
/// `ImageFormat::from_path` names, then `decode`. Claimed: the result is
/// `image_in_path_format` of the bytes and the path.
#[verifier::external_body]
pub(crate) fn load_in_path_format(data: &[u8], path: &std::path::PathBuf) -> (res: Result<
    image::DynamicImage,
    image::ImageError,
>)
    ensures
        res == image_in_path_format(data@, *path),
{
    let mut reader = image::io::Reader::new(std::io::Cursor::new(data));
    if let Ok(format) = image::ImageFormat::from_path(path) {
        reader.set_format(format);
    }
    reader.decode()
}

/// What `DynamicImage::write_to` with the PNG format writes for a picture,
/// or its error. The PNG encoder is deterministic, so this depends on the
/// picture alone.
pub uninterp spec fn png_encoding(picture: image::DynamicImage) -> Result<Seq<u8>, image::ImageError>;

/// Calls `DynamicImage::write_to` with the PNG format into an in-memory
/// buffer and hands out the bytes written. Claimed: they, or the error,
/// are `png_encoding` of the picture.
#[verifier::external_body]
pub(crate) fn encode_png(picture: &image::DynamicImage) -> (res: Result<Vec<u8>, image::ImageError>)
    ensures
        match res {
            Ok(bytes) => png_encoding(*picture) == Ok::<Seq<u8>, image::ImageError>(bytes@),
            Err(e) => png_encoding(*picture) == Err::<Seq<u8>, image::ImageError>(e),
        },
{
    let mut buffer = std::io::Cursor::new(Vec::new());
    picture.write_to(&mut buffer, image::ImageOutputFormat::Png).map(|_| buffer.into_inner())
}

/// The text `rascii_art::render_image_to` appends to an empty string for a
/// picture, with the given width, colours on and its other options at
/// their defaults (no height, no inversion, the default charset). The
/// renderer computes from the pixels and the options alone.
pub uninterp spec fn rascii_text(picture: image::DynamicImage, width: u32) -> Seq<char>;

/// Calls `rascii_art::render_image_to` into a fresh string with those
/// options. That function returns `Ok` on every input (its renderer writes
/// into a `String` and reports no error), which the body relies on.
/// Claimed: the text is `rascii_text` of the picture and the width.
#[verifier::external_body]
pub(crate) fn render_rascii(picture: &image::DynamicImage, width: u32) -> (res: String)
    ensures
        res@ == rascii_text(*picture, width),
{
    let mut text = String::new();
    let options = rascii_art::RenderOptions { width: Some(width), colored: true, ..Default::default() };
    rascii_art::render_image_to(picture, &mut text, &options).expect("ERROR: Failed to render ascii image");
    text
}

} // verus!
