//! Trusted wrappers around the `image` crate: decoding bytes into an image,
//! extracting raw pixel buffers, resizing, and re-encoding into the container
//! formats the engine serves directly.
//!
//! A decoded image travels through the engine as a [`SourceImage`]: the
//! opaque `DynamicImage` paired with a ghost record of the bytes it was
//! decoded from and of the resize applied to it, if any.  Every operation of
//! the crate used here is a pure function of those inputs (the format is
//! sniffed from the content; no randomness, time or environment enters), so
//! each result below carries a name over the source bytes, and the
//! dispatcher's contracts can pin their outputs end to end.  Each wrapper
//! holds one call into the crate plus argument/result conversion; Verus
//! believes the stated contracts, which were read off the crate's source.

use vstd::prelude::*;

verus! {

#[verifier::external_type_specification]
#[verifier::external_body]
pub struct ExDynamicImage(image::DynamicImage);

/// A decoded image: the crate's opaque value, tagged with the bytes it came
/// from and the bounds it was resized to fit, if any.  Only the wrappers in
/// this module build one, so the tags always describe the inner image.
pub struct SourceImage {
    inner: image::DynamicImage,
    src: Ghost<Seq<u8>>,
    fit: Ghost<Option<(u32, u32)>>,
}

impl SourceImage {
    /// The bytes this image was decoded from.
    pub closed spec fn src_bytes(&self) -> Seq<u8> {
        self.src@
    }

    /// The bounds the decoded image was resized to fit, if it was.
    pub closed spec fn fit_bounds(&self) -> Option<(u32, u32)> {
        self.fit@
    }
}

/// Whether `image::load_from_memory` accepts a byte sequence.
pub uninterp spec fn decode_ok(bytes: Seq<u8>) -> bool;

/// Width and height of the decoded image.
pub uninterp spec fn width_of(bytes: Seq<u8>) -> u32;

pub uninterp spec fn height_of(bytes: Seq<u8>) -> u32;

/// Dimensions after `DynamicImage::resize` to fit the given bounds.
pub uninterp spec fn fit_width_of(bytes: Seq<u8>, max_w: u32, max_h: u32) -> u32;

pub uninterp spec fn fit_height_of(bytes: Seq<u8>, max_w: u32, max_h: u32) -> u32;

/// The decoded image's pixels as `DynamicImage::to_rgb8` lays them out.
pub uninterp spec fn rgb8_of(bytes: Seq<u8>) -> Seq<u8>;

/// The decoded image's pixels as `DynamicImage::to_rgba8` lays them out.
pub uninterp spec fn rgba8_of(bytes: Seq<u8>) -> Seq<u8>;

/// Success and output of `DynamicImage::write_to` with the PNG format, for
/// the image decoded from `bytes` and resized to fit `fit`.
pub uninterp spec fn img_png_ok(bytes: Seq<u8>, fit: Option<(u32, u32)>) -> bool;

pub uninterp spec fn img_png_out(bytes: Seq<u8>, fit: Option<(u32, u32)>) -> Seq<u8>;

/// Success and output of `write_to` with the TIFF format.
pub uninterp spec fn tiff_ok(bytes: Seq<u8>, fit: Option<(u32, u32)>) -> bool;

pub uninterp spec fn tiff_out(bytes: Seq<u8>, fit: Option<(u32, u32)>) -> Seq<u8>;

/// Success and output of `write_to` with the BMP format.
pub uninterp spec fn bmp_ok(bytes: Seq<u8>, fit: Option<(u32, u32)>) -> bool;

pub uninterp spec fn bmp_out(bytes: Seq<u8>, fit: Option<(u32, u32)>) -> Seq<u8>;

/// Success and output of `write_to` with the ICO format.
pub uninterp spec fn ico_ok(bytes: Seq<u8>, fit: Option<(u32, u32)>) -> bool;

pub uninterp spec fn ico_out(bytes: Seq<u8>, fit: Option<(u32, u32)>) -> Seq<u8>;

/// Success and output of encoding a raw RGBA buffer as PNG
/// (`RgbaImage::from_raw` plus `write_to`).
pub uninterp spec fn rgba_png_ok(pixels: Seq<u8>, w: u32, h: u32) -> bool;

pub uninterp spec fn rgba_png_out(pixels: Seq<u8>, w: u32, h: u32) -> Seq<u8>;

/// Success and output of encoding a raw RGB buffer as JPEG
/// (`RgbImage::from_raw` plus `write_to`, the crate's default quality).
pub uninterp spec fn rgb_jpeg_ok(pixels: Seq<u8>, w: u32, h: u32) -> bool;

pub uninterp spec fn rgb_jpeg_out(pixels: Seq<u8>, w: u32, h: u32) -> Seq<u8>;

/// Relies on `image::load_from_memory`: decodes any supported format,
/// sniffing the format from the content; returns an error exactly when the
/// bytes are not a well-formed supported image, and in particular on empty
/// input, which no format signature matches.
#[verifier::external_body]
fn load_dynimage(bytes: &Vec<u8>) -> (r: Result<image::DynamicImage, String>)
    ensures
        r.is_ok() == decode_ok(bytes@),
        bytes@.len() == 0 ==> r is Err,
{
    image::load_from_memory(bytes.as_slice()).map_err(|e| format!("{}", e))
}

/// Decode bytes into a tagged image; the tags are set here, in verified
/// code, so they always describe where the inner image came from.
pub(crate) fn load_image(bytes: &Vec<u8>) -> (r: Result<SourceImage, String>)
    ensures
        r.is_ok() == decode_ok(bytes@),
        bytes@.len() == 0 ==> r is Err,
        r matches Ok(img) ==> img.src_bytes() == bytes@ && img.fit_bounds() is None,
{
    match load_dynimage(bytes) {
        Ok(i) => Ok(SourceImage { inner: i, src: Ghost(bytes@), fit: Ghost(None) }),
        Err(m) => Err(m),
    }
}

/// Relies on `DynamicImage::width`.
#[verifier::external_body]
pub(crate) fn image_width(img: &SourceImage) -> (w: u32)
    ensures
        w == match img.fit_bounds() {
            None => width_of(img.src_bytes()),
            Some(b) => fit_width_of(img.src_bytes(), b.0, b.1),
        },
{
    img.inner.width()
}

/// Relies on `DynamicImage::height`.
#[verifier::external_body]
pub(crate) fn image_height(img: &SourceImage) -> (h: u32)
    ensures
        h == match img.fit_bounds() {
            None => height_of(img.src_bytes()),
            Some(b) => fit_height_of(img.src_bytes(), b.0, b.1),
        },
{
    img.inner.height()
}

/// Relies on `DynamicImage::resize` with the Lanczos3 filter: the result
/// preserves the aspect ratio and fits within the given bounds.
#[verifier::external_body]
fn resize_dynimage(img: &image::DynamicImage, max_w: u32, max_h: u32) -> (r:
    image::DynamicImage) {
    img.resize(max_w, max_h, image::imageops::FilterType::Lanczos3)
}

/// Resize a decoded image to fit the given bounds, recording the bounds in
/// the tag, in verified code.
pub(crate) fn resize_lanczos(img: &SourceImage, max_w: u32, max_h: u32) -> (r: SourceImage)
    requires
        img.fit_bounds() is None,
    ensures
        r.src_bytes() == img.src_bytes(),
        r.fit_bounds() == Some((max_w, max_h)),
{
    SourceImage {
        inner: resize_dynimage(&img.inner, max_w, max_h),
        src: Ghost(img.src_bytes()),
        fit: Ghost(Some((max_w, max_h))),
    }
}

/// Relies on `DynamicImage::to_rgba8`: four bytes per pixel in row-major
/// order, so the buffer length is exactly `4 * width * height`.
#[verifier::external_body]
pub(crate) fn to_rgba8_raw(img: &SourceImage) -> (r: (Vec<u8>, u32, u32))
    requires
        img.fit_bounds() is None,
    ensures
        r.0@ == rgba8_of(img.src_bytes()),
        r.1 == width_of(img.src_bytes()),
        r.2 == height_of(img.src_bytes()),
        r.0@.len() == 4 * (r.1 as int) * (r.2 as int),
{
    let buf = img.inner.to_rgba8();
    let (w, h) = (buf.width(), buf.height());
    (buf.into_raw(), w, h)
}

/// Relies on `DynamicImage::to_rgb8`: three bytes per pixel, length
/// `3 * width * height`.
#[verifier::external_body]
pub(crate) fn to_rgb8_raw(img: &SourceImage) -> (r: (Vec<u8>, u32, u32))
    requires
        img.fit_bounds() is None,
    ensures
        r.0@ == rgb8_of(img.src_bytes()),
        r.1 == width_of(img.src_bytes()),
        r.2 == height_of(img.src_bytes()),
        r.0@.len() == 3 * (r.1 as int) * (r.2 as int),
{
    let buf = img.inner.to_rgb8();
    let (w, h) = (buf.width(), buf.height());
    (buf.into_raw(), w, h)
}

/// Relies on `DynamicImage::write_to` with the PNG format: failures come
/// back as errors, and a successful encode writes a complete PNG stream,
/// never empty (it starts with the eight-byte PNG signature).
#[verifier::external_body]
pub(crate) fn encode_png(img: &SourceImage) -> (r: Result<Vec<u8>, String>)
    ensures
        r.is_ok() == img_png_ok(img.src_bytes(), img.fit_bounds()),
        r matches Ok(b) ==> b@ == img_png_out(img.src_bytes(), img.fit_bounds()) && b@.len() > 0,
{
    let mut cur = std::io::Cursor::new(Vec::new());
    match img.inner.write_to(&mut cur, image::ImageFormat::Png) {
        Ok(()) => Ok(cur.into_inner()),
        Err(e) => Err(format!("{}", e)),
    }
}

/// Relies on `DynamicImage::write_to` with the TIFF format; a successful
/// encode writes a complete, non-empty TIFF stream.
#[verifier::external_body]
pub(crate) fn encode_tiff(img: &SourceImage) -> (r: Result<Vec<u8>, String>)
    ensures
        r.is_ok() == tiff_ok(img.src_bytes(), img.fit_bounds()),
        r matches Ok(b) ==> b@ == tiff_out(img.src_bytes(), img.fit_bounds()) && b@.len() > 0,
{
    let mut cur = std::io::Cursor::new(Vec::new());
    match img.inner.write_to(&mut cur, image::ImageFormat::Tiff) {
        Ok(()) => Ok(cur.into_inner()),
        Err(e) => Err(format!("{}", e)),
    }
}

/// Relies on `DynamicImage::write_to` with the BMP format; a successful
/// encode writes a complete, non-empty BMP stream.
#[verifier::external_body]
pub(crate) fn encode_bmp(img: &SourceImage) -> (r: Result<Vec<u8>, String>)
    ensures
        r.is_ok() == bmp_ok(img.src_bytes(), img.fit_bounds()),
        r matches Ok(b) ==> b@ == bmp_out(img.src_bytes(), img.fit_bounds()) && b@.len() > 0,
{
    let mut cur = std::io::Cursor::new(Vec::new());
    match img.inner.write_to(&mut cur, image::ImageFormat::Bmp) {
        Ok(()) => Ok(cur.into_inner()),
        Err(e) => Err(format!("{}", e)),
    }
}

/// Relies on `DynamicImage::write_to` with the ICO format; the encoder
/// rejects images larger than 256 in either dimension, and a successful
/// encode writes a complete, non-empty ICO stream.
#[verifier::external_body]
pub(crate) fn encode_ico(img: &SourceImage) -> (r: Result<Vec<u8>, String>)
    ensures
        r.is_ok() == ico_ok(img.src_bytes(), img.fit_bounds()),
        r matches Ok(b) ==> b@ == ico_out(img.src_bytes(), img.fit_bounds()) && b@.len() > 0,
{
    let mut cur = std::io::Cursor::new(Vec::new());
    match img.inner.write_to(&mut cur, image::ImageFormat::Ico) {
        Ok(()) => Ok(cur.into_inner()),
        Err(e) => Err(format!("{}", e)),
    }
}

/// Relies on `image::RgbaImage::from_raw` (which accepts a buffer of exactly
/// `4 * width * height` bytes) and `DynamicImage::write_to` with the PNG
/// format; a successful encode is non-empty.
#[verifier::external_body]
pub(crate) fn encode_rgba_png(pixels: Vec<u8>, w: u32, h: u32) -> (r: Result<Vec<u8>, String>)
    requires
        pixels@.len() == 4 * (w as int) * (h as int),
    ensures
        r.is_ok() == rgba_png_ok(pixels@, w, h),
        r matches Ok(b) ==> b@ == rgba_png_out(pixels@, w, h) && b@.len() > 0,
{
    let img = match image::RgbaImage::from_raw(w, h, pixels) {
        Some(i) => image::DynamicImage::ImageRgba8(i),
        None => return Err(String::from("pixel buffer does not match the dimensions")),
    };
    let mut cur = std::io::Cursor::new(Vec::new());
    match img.write_to(&mut cur, image::ImageFormat::Png) {
        Ok(()) => Ok(cur.into_inner()),
        Err(e) => Err(format!("{}", e)),
    }
}

/// Relies on `image::RgbImage::from_raw` (a buffer of exactly
/// `3 * width * height` bytes) and `DynamicImage::write_to` with the JPEG
/// format; a successful encode is non-empty.
#[verifier::external_body]
pub(crate) fn encode_rgb_jpeg(pixels: Vec<u8>, w: u32, h: u32) -> (r: Result<Vec<u8>, String>)
    requires
        pixels@.len() == 3 * (w as int) * (h as int),
    ensures
        r.is_ok() == rgb_jpeg_ok(pixels@, w, h),
        r matches Ok(b) ==> b@ == rgb_jpeg_out(pixels@, w, h) && b@.len() > 0,
{
    let img = match image::RgbImage::from_raw(w, h, pixels) {
        Some(i) => image::DynamicImage::ImageRgb8(i),
        None => return Err(String::from("pixel buffer does not match the dimensions")),
    };
    let mut cur = std::io::Cursor::new(Vec::new());
    match img.write_to(&mut cur, image::ImageFormat::Jpeg) {
        Ok(()) => Ok(cur.into_inner()),
        Err(e) => Err(format!("{}", e)),
    }
}

} // verus!
