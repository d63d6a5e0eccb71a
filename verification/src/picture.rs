//! Decoded images, made, scaled and encoded by the `image` crate.
//!
//! A `Picture` holds the crate's decoded image together with its size,
//! colour layout and pixel bytes as plain values. Only the functions of
//! this module make one, always from the same decoded image, so the plain
//! values describe the image they sit beside.
use vstd::prelude::*;

use image::DynamicImage;

verus! {

/// Declares `image::DynamicImage` to Verus as an opaque type.
#[verifier::external_type_specification]
#[verifier::external_body]
pub struct ExDynamicImage(DynamicImage);

/// A decoded image.
pub struct Picture {
    image: DynamicImage,
    width: u32,
    height: u32,
    channels: u8,
    bytes_per_pixel: u8,
    samples: Vec<u8>,
}

impl Picture {
    /// What the image is: its width and height in pixels, the number of
    /// channels and of bytes of each pixel (which together name its colour
    /// type), and its pixel bytes, row by row, each sample in the machine's
    /// byte order.
    pub closed spec fn content(self) -> (u32, u32, u8, u8, Seq<u8>) {
        (self.width, self.height, self.channels, self.bytes_per_pixel, self.samples@)
    }
}

/// The lower-case form of an ASCII letter; any other character unchanged.
pub open spec fn ascii_lower(c: char) -> char {
    if 'A' <= c && c <= 'Z' {
        ((c as u32) + 32) as char
    } else {
        c
    }
}

/// Whether `ext`, compared without regard to ASCII case, is a file
/// extension that `image::ImageFormat::from_extension` names a format for.
pub open spec fn image_extension_known(ext: Seq<char>) -> bool {
    let l = ext.map_values(|c: char| ascii_lower(c));
    ||| l == "avif"@ || l == "jpg"@ || l == "jpeg"@ || l == "png"@ || l == "gif"@
    ||| l == "webp"@ || l == "tif"@ || l == "tiff"@ || l == "tga"@ || l == "dds"@
    ||| l == "bmp"@ || l == "ico"@ || l == "hdr"@ || l == "exr"@ || l == "pbm"@
    ||| l == "pam"@ || l == "ppm"@ || l == "pgm"@ || l == "ff"@ || l == "farbfeld"@
    ||| l == "qoi"@
}

/// What decoding `bytes` in the format that the file extension `extension`
/// names gives: the image's content, or the text of the crate's error.
pub uninterp spec fn decoded_image(bytes: Seq<u8>, extension: Seq<char>) -> Result<
    (u32, u32, u8, u8, Seq<u8>),
    Seq<char>,
>;

/// The pixel bytes of the image with the given content scaled to `size` by
/// `size` pixels with the Lanczos filter (radius 3), its aspect ratio not
/// kept and its colour type unchanged.
pub uninterp spec fn lanczos3_resized(
    width: u32,
    height: u32,
    channels: u8,
    bytes_per_pixel: u8,
    samples: Seq<u8>,
    size: u32,
) -> Seq<u8>;

/// The PNG file of the image with the given content, in its own colour
/// type, or the text of the crate's error.
pub uninterp spec fn png_encoded(
    width: u32,
    height: u32,
    channels: u8,
    bytes_per_pixel: u8,
    samples: Seq<u8>,
) -> Result<Seq<u8>, Seq<char>>;

/// Calls `image::ImageFormat::from_extension` on `extension` and, where it
/// names a format, `image::load_from_memory_with_format` on `bytes` in that
/// format; `Err(None)` when the extension names none. Per the crate's
/// source the extension is matched, without regard to ASCII case, against
/// a fixed list; the decoded image, or the error's text, is named
/// `decoded_image`.
#[verifier::external_body]
pub(crate) fn decode_picture(bytes: &[u8], extension: &str) -> (r: Result<Picture, Option<String>>)
    ensures
        r matches Err(None) <==> !image_extension_known(extension@),
        r matches Ok(p) ==> decoded_image(bytes@, extension@) is Ok && decoded_image(
            bytes@,
            extension@,
        )->Ok_0 == p.content(),
        r matches Err(Some(m)) ==> decoded_image(bytes@, extension@) is Err && decoded_image(
            bytes@,
            extension@,
        )->Err_0 == m@,
{
    let Some(format) = image::ImageFormat::from_extension(extension) else { return Err(None) };
    match image::load_from_memory_with_format(bytes, format) {
        Ok(image) => Ok(Picture {
            width: image.width(),
            height: image.height(),
            channels: image.color().channel_count(),
            bytes_per_pixel: image.color().bytes_per_pixel(),
            samples: image.as_bytes().to_vec(),
            image,
        }),
        Err(e) => Err(Some(e.to_string())),
    }
}

/// Calls `image::DynamicImage::resize_exact` with the Lanczos3 filter. Per
/// the crate's source the result is `size` by `size` pixels and keeps the
/// colour type; its pixels are named `lanczos3_resized`.
#[verifier::external_body]
pub(crate) fn resize_picture(p: &Picture, size: u32) -> (r: Picture)
    ensures
        r.content() == (size, size, p.content().2, p.content().3, lanczos3_resized(
            p.content().0,
            p.content().1,
            p.content().2,
            p.content().3,
            p.content().4,
            size,
        )),
{
    let image = p.image.resize_exact(size, size, image::imageops::FilterType::Lanczos3);
    Picture {
        width: image.width(),
        height: image.height(),
        channels: image.color().channel_count(),
        bytes_per_pixel: image.color().bytes_per_pixel(),
        samples: image.as_bytes().to_vec(),
        image,
    }
}

/// Calls `image::DynamicImage::write_to` with the PNG format into memory:
/// the bytes `save` writes to a `.png` path. The file, or the error's text,
/// is named `png_encoded`.
#[verifier::external_body]
pub(crate) fn encode_png(p: &Picture) -> (r: Result<Vec<u8>, String>)
    ensures
        r matches Ok(b) ==> png_encoded(p.content().0, p.content().1, p.content().2, p.content().3, p.content().4) is Ok
            && png_encoded(p.content().0, p.content().1, p.content().2, p.content().3, p.content().4)->Ok_0 == b@,
        r matches Err(m) ==> png_encoded(p.content().0, p.content().1, p.content().2, p.content().3, p.content().4) is Err
            && png_encoded(p.content().0, p.content().1, p.content().2, p.content().3, p.content().4)->Err_0 == m@,
{
    let mut out = std::io::Cursor::new(Vec::new());
    match p.image.write_to(&mut out, image::ImageOutputFormat::Png) {
        Ok(()) => Ok(out.into_inner()),
        Err(e) => Err(e.to_string()),
    }
}

/// The PNG file of the image with content `source` scaled to `size` by
/// `size` pixels, or the text of the error that encoding it gave.
pub open spec fn picture_png(source: (u32, u32, u8, u8, Seq<u8>), size: u32) -> Result<Seq<u8>, Seq<char>> {
    png_encoded(size, size, source.2, source.3, lanczos3_resized(source.0, source.1, source.2, source.3, source.4, size))
}

/// The PNG file of `p` scaled to `size` by `size` pixels.
pub fn scaled_png(p: &Picture, size: u32) -> (r: Result<Vec<u8>, String>)
    ensures
        r matches Ok(b) ==> picture_png(p.content(), size) is Ok && picture_png(p.content(), size)->Ok_0
            == b@,
        r matches Err(m) ==> picture_png(p.content(), size) is Err && picture_png(
            p.content(),
            size,
        )->Err_0 == m@,
{
    let scaled = resize_picture(p, size);
    encode_png(&scaled)
}

} // verus!
