//! Trusted wrappers around the scalar-quality codecs and the lossless PNG
//! post-pass: mozjpeg for JPEG, libwebp for WebP, ravif for AVIF, and oxipng.
//! Each wrapper holds one encode pipeline; the quality values and the choice
//! between the plain and the optimizing JPEG pipeline are made by verified
//! code and passed in.  Every pipeline here is a pure function of its
//! arguments (libjpeg-turbo and libwebp run single-threaded as configured,
//! and ravif and oxipng are built without their thread pools), so each
//! result carries a name the callers' contracts compose.

use vstd::prelude::*;

verus! {

/// Success and output of the mozjpeg pipeline on a raw RGB buffer;
/// `optimize` selects the coding- and scan-optimizing variant.
pub uninterp spec fn jpeg_ok(px: Seq<u8>, w: u32, h: u32, quality: u8, optimize: bool) -> bool;

pub uninterp spec fn jpeg_out(px: Seq<u8>, w: u32, h: u32, quality: u8, optimize: bool) -> Seq<u8>;

/// Success and output of libwebp's lossy encode on a raw RGBA buffer.
pub uninterp spec fn webp_ok(px: Seq<u8>, w: u32, h: u32, quality: u8) -> bool;

pub uninterp spec fn webp_out(px: Seq<u8>, w: u32, h: u32, quality: u8) -> Seq<u8>;

/// Success and output of ravif's lossy encode on a raw RGBA buffer.
pub uninterp spec fn avif_ok(px: Seq<u8>, w: u32, h: u32, quality: u8, speed: u8) -> bool;

pub uninterp spec fn avif_out(px: Seq<u8>, w: u32, h: u32, quality: u8, speed: u8) -> Seq<u8>;

/// Success and output of oxipng's lossless recompression of a PNG stream.
pub uninterp spec fn oxipng_ok(png: Seq<u8>, preset: u8) -> bool;

pub uninterp spec fn oxipng_out(png: Seq<u8>, preset: u8) -> Seq<u8>;

/// Relies on mozjpeg's `Compress` in RGB color space with progressive scan
/// ordering (`set_progressive_mode`, `set_scan_optimization_mode` with all
/// components together): `start_compress`, `write_scanlines` and `finish`
/// report failures as errors, and a successful encode writes a complete,
/// non-empty JPEG stream.  Dimensions above 65500 raise a fatal libjpeg
/// error, which the crate's error manager turns into a panic, so they are
/// excluded here.
#[verifier::external_body]
pub(crate) fn mozjpeg_encode_rgb(pixels: &Vec<u8>, w: u32, h: u32, quality: u8) -> (r: Result<
    Vec<u8>,
    String,
>)
    requires
        pixels@.len() == 3 * (w as int) * (h as int),
        0 < w <= 65500,
        0 < h <= 65500,
    ensures
        r.is_ok() == jpeg_ok(pixels@, w, h, quality, false),
        r matches Ok(b) ==> b@ == jpeg_out(pixels@, w, h, quality, false) && b@.len() > 0,
{
    let mut comp = mozjpeg::Compress::new(mozjpeg::ColorSpace::JCS_RGB);
    comp.set_size(w as usize, h as usize);
    comp.set_quality(quality.into());
    comp.set_progressive_mode();
    comp.set_scan_optimization_mode(mozjpeg::ScanMode::AllComponentsTogether);
    let mut started = comp.start_compress(Vec::new()).map_err(|e| format!("{}", e))?;
    started.write_scanlines(pixels.as_slice()).map_err(|e| format!("{}", e))?;
    started.finish().map_err(|e| format!("{}", e))
}

/// The same mozjpeg pipeline as `mozjpeg_encode_rgb` with
/// `set_optimize_coding(true)` and `set_optimize_scans(true)` added, the
/// variant used for aggressive quality settings.  The same dimension limit
/// applies.
#[verifier::external_body]
pub(crate) fn mozjpeg_encode_rgb_optimized(pixels: &Vec<u8>, w: u32, h: u32, quality: u8) -> (r:
    Result<Vec<u8>, String>)
    requires
        pixels@.len() == 3 * (w as int) * (h as int),
        0 < w <= 65500,
        0 < h <= 65500,
    ensures
        r.is_ok() == jpeg_ok(pixels@, w, h, quality, true),
        r matches Ok(b) ==> b@ == jpeg_out(pixels@, w, h, quality, true) && b@.len() > 0,
{
    let mut comp = mozjpeg::Compress::new(mozjpeg::ColorSpace::JCS_RGB);
    comp.set_size(w as usize, h as usize);
    comp.set_quality(quality.into());
    comp.set_progressive_mode();
    comp.set_scan_optimization_mode(mozjpeg::ScanMode::AllComponentsTogether);
    comp.set_optimize_coding(true);
    comp.set_optimize_scans(true);
    let mut started = comp.start_compress(Vec::new()).map_err(|e| format!("{}", e))?;
    started.write_scanlines(pixels.as_slice()).map_err(|e| format!("{}", e))?;
    started.finish().map_err(|e| format!("{}", e))
}

/// Relies on `webp::Encoder::from_rgba` (which expects exactly
/// `4 * width * height` bytes) and `encode_simple` for a lossy encode at the
/// given quality: failures, including dimensions above the format's 16383
/// limit or a quality above 100, come back as errors, and a successful
/// encode is a complete, non-empty WebP (RIFF) stream.
#[verifier::external_body]
pub(crate) fn webp_encode_rgba(pixels: &Vec<u8>, w: u32, h: u32, quality: u8) -> (r: Result<
    Vec<u8>,
    String,
>)
    requires
        pixels@.len() == 4 * (w as int) * (h as int),
        w > 0,
        h > 0,
    ensures
        r.is_ok() == webp_ok(pixels@, w, h, quality),
        r matches Ok(b) ==> b@ == webp_out(pixels@, w, h, quality) && b@.len() > 0,
{
    let enc = webp::Encoder::from_rgba(pixels.as_slice(), w, h);
    match enc.encode_simple(false, quality.into()) {
        Ok(mem) => Ok(mem.to_vec()),
        Err(e) => Err(format!("webp encoding failed: {:?}", e)),
    }
}

/// Relies on `ravif::Encoder` (`with_quality`, `with_speed`, `encode_rgba`
/// over an `Img` of exactly `width * height` RGBA pixels): encoding failures
/// come back as errors and a successful encode yields a complete, non-empty
/// AVIF file.  `with_quality` and `with_speed` assert their ranges (quality
/// 1 to 100, speed 1 to 10) and panic outside them, so those are excluded
/// here.
#[verifier::external_body]
pub(crate) fn avif_encode_rgba(pixels: &Vec<u8>, w: u32, h: u32, quality: u8, speed: u8) -> (r:
    Result<Vec<u8>, String>)
    requires
        pixels@.len() == 4 * (w as int) * (h as int),
        w > 0,
        h > 0,
        1 <= quality <= 100,
        1 <= speed <= 10,
    ensures
        r.is_ok() == avif_ok(pixels@, w, h, quality, speed),
        r matches Ok(b) ==> b@ == avif_out(pixels@, w, h, quality, speed) && b@.len() > 0,
{
    let px: Vec<ravif::RGBA8> = pixels.chunks_exact(4).map(
        |c| ravif::RGBA8::new(c[0], c[1], c[2], c[3]),
    ).collect();
    let img = ravif::Img::new(px.as_slice(), w as usize, h as usize);
    let enc = ravif::Encoder::new().with_quality(quality.into()).with_speed(speed);
    match enc.encode_rgba(img) {
        Ok(out) => Ok(out.avif_file),
        Err(e) => Err(format!("{}", e)),
    }
}

/// Relies on `oxipng::optimize_from_memory` with `Options::from_preset`
/// (total for every preset byte) and safe chunk stripping: a lossless
/// recompression that returns a complete, non-empty PNG stream on success.
#[verifier::external_body]
pub(crate) fn oxipng_optimize(png: &Vec<u8>, preset: u8) -> (r: Result<Vec<u8>, String>)
    ensures
        r.is_ok() == oxipng_ok(png@, preset),
        r matches Ok(b) ==> b@ == oxipng_out(png@, preset) && b@.len() > 0,
{
    let mut opts = oxipng::Options::from_preset(preset);
    opts.strip = oxipng::StripChunks::Safe;
    oxipng::optimize_from_memory(png.as_slice(), &opts).map_err(|e| format!("{}", e))
}

} // verus!
