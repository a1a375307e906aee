//! The format encoders: one verified pipeline per target format.  Each one
//! decodes the source bytes (all failures surface as typed errors, never a
//! panic), applies the verified policy decisions — quality parsing, the
//! aggressive-quantization presets, the JPEG coding-optimization toggle, the
//! ICO resize and its PNG fallback — and drives the trusted codec wrappers.
//!
//! Every codec call is a pure function of its arguments, so each encoder's
//! contract pins success and output exactly: `r is Ok` if and only if every
//! stage of its pipeline accepts the input, and the bytes of a successful
//! result are the named composition of those stages.

use vstd::prelude::*;
use vstd::string::*;

use crate::codecs::{
    avif_encode_rgba, avif_ok, avif_out, jpeg_ok, jpeg_out, mozjpeg_encode_rgb,
    mozjpeg_encode_rgb_optimized, oxipng_ok, oxipng_optimize, oxipng_out, webp_encode_rgba,
    webp_ok, webp_out,
};
use crate::errors::CompressionError;
use crate::imgcodec::{
    bmp_ok, bmp_out, decode_ok, encode_bmp, encode_ico, encode_png, encode_rgb_jpeg,
    encode_rgba_png, encode_tiff, height_of, ico_ok, ico_out, image_height, image_width,
    img_png_ok, img_png_out, load_image, resize_lanczos, rgb8_of, rgb_jpeg_ok, rgb_jpeg_out,
    rgba8_of, rgba_png_ok, rgba_png_out, tiff_ok, tiff_out, to_rgb8_raw, to_rgba8_raw, width_of,
};
use crate::quality::{parse_quality_range, spec_parse_quality_range};
use crate::quantize::{liq_quantize, quant_index, quant_ok, quant_palette};

verus! {

// ---------------------------------------------------------------------------
// Palette expansion
// ---------------------------------------------------------------------------

/// The byte at position `k` of the palette expansion: pixel `k / 4`'s
/// palette entry, component `k % 4`.
pub open spec fn expanded_byte(palette: Seq<u8>, index: Seq<u8>, k: int) -> u8 {
    palette[4 * (index[k / 4] as int) + (k % 4)]
}

/// The palette expansion as a whole: four bytes per index.
pub open spec fn expand_seq(palette: Seq<u8>, index: Seq<u8>) -> Seq<u8> {
    Seq::new(4 * index.len(), |k: int| expanded_byte(palette, index, k))
}

/// Every index addresses a full four-byte palette entry.
pub open spec fn indices_in_palette(palette: Seq<u8>, index: Seq<u8>) -> bool {
    forall|i: int| 0 <= i < index.len() ==> 4 * (#[trigger] index[i] as int) + 4 <= palette.len()
}

/// Expand palette indices back into a flat RGBA buffer, four bytes per
/// pixel.  `None` exactly when some index does not address a full palette
/// entry — nothing is assumed about the quantizer's output here.
fn expand_palette(palette: &Vec<u8>, index: &Vec<u8>) -> (r: Option<Vec<u8>>)
    ensures
        r is Some <==> indices_in_palette(palette@, index@),
        r matches Some(v) ==> v@ == expand_seq(palette@, index@),
{
    let n = index.len();
    let m = palette.len();
    let mut r: Vec<u8> = Vec::new();
    let mut i: usize = 0;
    while i < n
        invariant
            i <= n,
            n == index@.len(),
            m == palette@.len(),
            forall|t: int| 0 <= t < i ==> 4 * (#[trigger] index@[t] as int) + 4 <= palette@.len(),
            r@.len() == 4 * i,
            forall|k: int| 0 <= k < 4 * i ==> r@[k] == expanded_byte(palette@, index@, k),
        decreases n - i,
    {
        let idx: usize = index[i] as usize;
        let base: usize = 4 * idx;
        if base + 4 > m {
            return None;
        }
        r.push(palette[base]);
        r.push(palette[base + 1]);
        r.push(palette[base + 2]);
        r.push(palette[base + 3]);
        i = i + 1;
        proof {
            assert forall|k: int| 0 <= k < 4 * i implies r@[k] == expanded_byte(
                palette@,
                index@,
                k,
            ) by {
                if k >= 4 * (i - 1) {
                    let j = k - 4 * (i - 1);
                    assert(k / 4 == i - 1 && k % 4 == j) by (nonlinear_arith)
                        requires
                            0 <= j < 4,
                            k == 4 * (i - 1) + j,
                    ;
                }
            }
        }
    }
    proof {
        assert(r@ =~= expand_seq(palette@, index@));
    }
    Some(r)
}

// ---------------------------------------------------------------------------
// The encoder pipelines, as specifications
// ---------------------------------------------------------------------------

/// Quantization search speed: slowest and most thorough under the
/// aggressive preset, balanced otherwise.
pub open spec fn quant_speed(max_q: u8) -> i32 {
    if max_q <= 60 {
        1
    } else {
        3
    }
}

/// Palette bound: halved under the aggressive preset.
pub open spec fn quant_colors(max_q: u8) -> u32 {
    if max_q <= 60 {
        128
    } else {
        256
    }
}

/// The palette the quantizer picks for this input under the given range.
pub open spec fn lossy_palette(input: Seq<u8>, range: Seq<char>) -> Seq<u8> {
    let q = spec_parse_quality_range(range);
    quant_palette(
        rgba8_of(input),
        width_of(input),
        height_of(input),
        q.0,
        q.1,
        quant_speed(q.1),
        quant_colors(q.1),
        1,
    )
}

/// The per-pixel palette indices for this input under the given range.
pub open spec fn lossy_index(input: Seq<u8>, range: Seq<char>) -> Seq<u8> {
    let q = spec_parse_quality_range(range);
    quant_index(
        rgba8_of(input),
        width_of(input),
        height_of(input),
        q.0,
        q.1,
        quant_speed(q.1),
        quant_colors(q.1),
        1,
    )
}

/// The quantized PNG before the optional lossless post-pass.
pub open spec fn lossy_raw_png(input: Seq<u8>, range: Seq<char>) -> Seq<u8> {
    rgba_png_out(
        expand_seq(lossy_palette(input, range), lossy_index(input, range)),
        width_of(input),
        height_of(input),
    )
}

/// When the quantizing PNG pipeline succeeds: the input decodes to a
/// non-empty image, the quantizer accepts it under the derived presets, the
/// returned indices address the returned palette, the expanded buffer
/// re-encodes as PNG, and — when requested — the lossless post-pass accepts
/// that stream.
pub open spec fn spec_png_lossy_ok(input: Seq<u8>, range: Seq<char>, run_oxipng: bool) -> bool {
    let q = spec_parse_quality_range(range);
    &&& decode_ok(input)
    &&& width_of(input) > 0
    &&& height_of(input) > 0
    &&& quant_ok(
        rgba8_of(input),
        width_of(input),
        height_of(input),
        q.0,
        q.1,
        quant_speed(q.1),
        quant_colors(q.1),
        1,
    )
    &&& indices_in_palette(lossy_palette(input, range), lossy_index(input, range))
    &&& rgba_png_ok(
        expand_seq(lossy_palette(input, range), lossy_index(input, range)),
        width_of(input),
        height_of(input),
    )
    &&& (run_oxipng ==> oxipng_ok(lossy_raw_png(input, range), 6))
}

/// What the quantizing PNG pipeline returns on success.
pub open spec fn spec_png_lossy_out(input: Seq<u8>, range: Seq<char>, run_oxipng: bool) -> Seq<
    u8,
> {
    if run_oxipng {
        oxipng_out(lossy_raw_png(input, range), 6)
    } else {
        lossy_raw_png(input, range)
    }
}

/// When the lossless PNG re-encode succeeds, and what it returns.
pub open spec fn spec_png_lossless_ok(input: Seq<u8>) -> bool {
    decode_ok(input) && img_png_ok(input, None)
}

pub open spec fn spec_png_lossless_out(input: Seq<u8>) -> Seq<u8> {
    img_png_out(input, None)
}

/// When the JPEG pipeline succeeds: the input decodes within libjpeg's
/// dimension limit and mozjpeg accepts the pixels; coding and scan
/// optimization are part of the pipeline exactly when the quality scalar is
/// at most 60.
pub open spec fn spec_jpeg_ok(input: Seq<u8>, quality: u8) -> bool {
    &&& decode_ok(input)
    &&& 0 < width_of(input) <= 65500
    &&& 0 < height_of(input) <= 65500
    &&& jpeg_ok(rgb8_of(input), width_of(input), height_of(input), quality, quality <= 60)
}

pub open spec fn spec_jpeg_out(input: Seq<u8>, quality: u8) -> Seq<u8> {
    jpeg_out(rgb8_of(input), width_of(input), height_of(input), quality, quality <= 60)
}

/// When the WebP pipeline succeeds: the input decodes within the format's
/// dimension limit and libwebp accepts the pixels at this quality.
pub open spec fn spec_webp_ok(input: Seq<u8>, quality: u8) -> bool {
    &&& decode_ok(input)
    &&& 0 < width_of(input) <= 16383
    &&& 0 < height_of(input) <= 16383
    &&& webp_ok(rgba8_of(input), width_of(input), height_of(input), quality)
}

pub open spec fn spec_webp_out(input: Seq<u8>, quality: u8) -> Seq<u8> {
    webp_out(rgba8_of(input), width_of(input), height_of(input), quality)
}

/// The AVIF encoder's quality knob runs 1 to 100, so the scalar is clamped
/// into that range.
pub open spec fn avif_quality(quality: u8) -> u8 {
    if quality < 1 {
        1
    } else if quality > 100 {
        100
    } else {
        quality
    }
}

/// When the AVIF pipeline succeeds, at the fixed medium speed preset.
pub open spec fn spec_avif_ok(input: Seq<u8>, quality: u8) -> bool {
    &&& decode_ok(input)
    &&& width_of(input) > 0
    &&& height_of(input) > 0
    &&& avif_ok(rgba8_of(input), width_of(input), height_of(input), avif_quality(quality), 6)
}

pub open spec fn spec_avif_out(input: Seq<u8>, quality: u8) -> Seq<u8> {
    avif_out(rgba8_of(input), width_of(input), height_of(input), avif_quality(quality), 6)
}

/// The intermediate baseline JPEG the HEIC conversion hands to the JPEG
/// pipeline.
pub open spec fn heic_intermediate(input: Seq<u8>) -> Seq<u8> {
    rgb_jpeg_out(rgb8_of(input), width_of(input), height_of(input))
}

/// When the HEIC conversion succeeds: decode, re-encode the pixels as a
/// baseline JPEG, then run the whole JPEG pipeline on that stream.
pub open spec fn spec_heic_ok(input: Seq<u8>, quality: u8) -> bool {
    &&& decode_ok(input)
    &&& width_of(input) > 0
    &&& height_of(input) > 0
    &&& rgb_jpeg_ok(rgb8_of(input), width_of(input), height_of(input))
    &&& spec_jpeg_ok(heic_intermediate(input), quality)
}

pub open spec fn spec_heic_out(input: Seq<u8>, quality: u8) -> Seq<u8> {
    spec_jpeg_out(heic_intermediate(input), quality)
}

/// When the TIFF re-encode succeeds, and what it returns.
pub open spec fn spec_tiff_ok(input: Seq<u8>) -> bool {
    decode_ok(input) && tiff_ok(input, None)
}

pub open spec fn spec_tiff_out(input: Seq<u8>) -> Seq<u8> {
    tiff_out(input, None)
}

/// When the BMP re-encode succeeds, and what it returns.
pub open spec fn spec_bmp_ok(input: Seq<u8>) -> bool {
    decode_ok(input) && bmp_ok(input, None)
}

pub open spec fn spec_bmp_out(input: Seq<u8>) -> Seq<u8> {
    bmp_out(input, None)
}

/// The bounds the ICO path resizes to: images over 256 in either dimension
/// are brought down to fit 256 by 256.
pub open spec fn ico_fit(input: Seq<u8>) -> Option<(u32, u32)> {
    if width_of(input) > 256 || height_of(input) > 256 {
        Some((256u32, 256u32))
    } else {
        None
    }
}

/// When the ICO conversion succeeds: the input decodes, and either the ICO
/// encoder or — as the documented silent fallback — the PNG encoder accepts
/// the possibly-resized image.
pub open spec fn spec_ico_ok(input: Seq<u8>) -> bool {
    decode_ok(input) && (ico_ok(input, ico_fit(input)) || img_png_ok(input, ico_fit(input)))
}

pub open spec fn spec_ico_out(input: Seq<u8>) -> Seq<u8> {
    if ico_ok(input, ico_fit(input)) {
        ico_out(input, ico_fit(input))
    } else {
        img_png_out(input, ico_fit(input))
    }
}

// ---------------------------------------------------------------------------
// The encoders
// ---------------------------------------------------------------------------

/// PNG with palette quantization: decode to RGBA, quantize with the parsed
/// quality-range bounds (slowest search and a 128-color palette when the
/// range asks for maximal compression, a balanced search otherwise,
/// dithering fixed at full strength), expand the palette back to RGBA,
/// re-encode as PNG, and optionally run the lossless post-pass.
pub fn compress_png_bytes(input: &Vec<u8>, quality_range: &str, run_oxipng: bool) -> (r: Result<
    Vec<u8>,
    CompressionError,
>)
    ensures
        r is Ok <==> spec_png_lossy_ok(input@, quality_range@, run_oxipng),
        r matches Ok(b) ==> b@ == spec_png_lossy_out(input@, quality_range@, run_oxipng)
            && b@.len() > 0,
        !decode_ok(input@) ==> (r matches Err(e) && e is Decode),
        (r matches Err(e) && e is Encode) ==> decode_ok(input@),
{
    let img = match load_image(input) {
        Ok(i) => i,
        Err(m) => return Err(CompressionError::Decode(m)),
    };
    let (rgba, w, h) = to_rgba8_raw(&img);
    if w == 0 || h == 0 {
        return Err(CompressionError::Decode(String::from_str("image has no pixels")));
    }
    let (min_q, max_q) = parse_quality_range(quality_range);
    let is_max_compression = max_q <= 60;
    let speed: i32 = if is_max_compression {
        1
    } else {
        3
    };
    let colors: u32 = if is_max_compression {
        128
    } else {
        256
    };
    let (palette, index) = match liq_quantize(rgba.as_slice(), w, h, min_q, max_q, speed, colors, 1) {
        Ok(p) => p,
        Err(m) => return Err(CompressionError::Encode(m)),
    };
    let expanded = match expand_palette(&palette, &index) {
        Some(v) => v,
        None => return Err(
            CompressionError::Encode(String::from_str("quantizer returned an invalid palette index")),
        ),
    };
    proof {
        assert(expanded@.len() == 4 * (w as int) * (h as int)) by (nonlinear_arith)
            requires
                expanded@.len() == 4 * index@.len(),
                index@.len() == (w as int) * (h as int),
        ;
    }
    let png = match encode_rgba_png(expanded, w, h) {
        Ok(b) => b,
        Err(m) => return Err(CompressionError::Encode(m)),
    };
    if run_oxipng {
        match oxipng_optimize(&png, 6) {
            Ok(b) => Ok(b),
            Err(m) => Err(CompressionError::Encode(m)),
        }
    } else {
        Ok(png)
    }
}

/// Lossless PNG re-encode: decode and write back out as PNG, no
/// quantization.
pub fn reencode_png_lossless(input: &Vec<u8>) -> (r: Result<Vec<u8>, CompressionError>)
    ensures
        r is Ok <==> spec_png_lossless_ok(input@),
        r matches Ok(b) ==> b@ == spec_png_lossless_out(input@) && b@.len() > 0,
        !decode_ok(input@) ==> (r matches Err(e) && e is Decode),
        (r matches Err(e) && e is Encode) ==> decode_ok(input@),
{
    let img = match load_image(input) {
        Ok(i) => i,
        Err(m) => return Err(CompressionError::Decode(m)),
    };
    match encode_png(&img) {
        Ok(b) => Ok(b),
        Err(m) => Err(CompressionError::Encode(m)),
    }
}

/// JPEG re-encode with progressive scan ordering; coding and scan
/// optimization are enabled exactly when the quality scalar is at most 60.
pub fn compress_jpeg_bytes(input: &Vec<u8>, quality: u8) -> (r: Result<Vec<u8>, CompressionError>)
    ensures
        r is Ok <==> spec_jpeg_ok(input@, quality),
        r matches Ok(b) ==> b@ == spec_jpeg_out(input@, quality) && b@.len() > 0,
        !decode_ok(input@) ==> (r matches Err(e) && e is Decode),
        (r matches Err(e) && e is Encode) ==> decode_ok(input@),
{
    let img = match load_image(input) {
        Ok(i) => i,
        Err(m) => return Err(CompressionError::Decode(m)),
    };
    let (rgb, w, h) = to_rgb8_raw(&img);
    if w == 0 || h == 0 {
        return Err(CompressionError::Decode(String::from_str("image has no pixels")));
    }
    if w > 65500 || h > 65500 {
        return Err(CompressionError::Encode(String::from_str("dimensions exceed the JPEG limit")));
    }
    let res = if quality <= 60 {
        mozjpeg_encode_rgb_optimized(&rgb, w, h, quality)
    } else {
        mozjpeg_encode_rgb(&rgb, w, h, quality)
    };
    match res {
        Ok(b) => Ok(b),
        Err(m) => Err(CompressionError::Encode(m)),
    }
}

/// Lossy WebP encode at the given quality scalar.
pub fn to_webp_bytes(input: &Vec<u8>, quality: u8) -> (r: Result<Vec<u8>, CompressionError>)
    ensures
        r is Ok <==> spec_webp_ok(input@, quality),
        r matches Ok(b) ==> b@ == spec_webp_out(input@, quality) && b@.len() > 0,
        !decode_ok(input@) ==> (r matches Err(e) && e is Decode),
        (r matches Err(e) && e is Encode) ==> decode_ok(input@),
{
    let img = match load_image(input) {
        Ok(i) => i,
        Err(m) => return Err(CompressionError::Decode(m)),
    };
    let (rgba, w, h) = to_rgba8_raw(&img);
    if w == 0 || h == 0 {
        return Err(CompressionError::Decode(String::from_str("image has no pixels")));
    }
    if w > 16383 || h > 16383 {
        return Err(CompressionError::Encode(String::from_str("dimensions exceed the WebP limit")));
    }
    match webp_encode_rgba(&rgba, w, h, quality) {
        Ok(b) => Ok(b),
        Err(m) => Err(CompressionError::Encode(m)),
    }
}

/// Lossy AVIF encode at the given quality scalar (clamped into the
/// encoder's 1 to 100 knob), fixed medium speed preset.
pub fn to_avif_bytes(input: &Vec<u8>, quality: u8) -> (r: Result<Vec<u8>, CompressionError>)
    ensures
        r is Ok <==> spec_avif_ok(input@, quality),
        r matches Ok(b) ==> b@ == spec_avif_out(input@, quality) && b@.len() > 0,
        !decode_ok(input@) ==> (r matches Err(e) && e is Decode),
        (r matches Err(e) && e is Encode) ==> decode_ok(input@),
{
    let img = match load_image(input) {
        Ok(i) => i,
        Err(m) => return Err(CompressionError::Decode(m)),
    };
    let (rgba, w, h) = to_rgba8_raw(&img);
    if w == 0 || h == 0 {
        return Err(CompressionError::Decode(String::from_str("image has no pixels")));
    }
    let q: u8 = if quality < 1 {
        1
    } else if quality > 100 {
        100
    } else {
        quality
    };
    match avif_encode_rgba(&rgba, w, h, q, 6) {
        Ok(b) => Ok(b),
        Err(m) => Err(CompressionError::Encode(m)),
    }
}

/// HEIC/HEIF conversion: decode, re-encode the pixels as a baseline JPEG,
/// then run the JPEG pipeline on that at the given quality.
pub fn heic_to_jpeg_bytes(input: &Vec<u8>, quality: u8) -> (r: Result<Vec<u8>, CompressionError>)
    ensures
        r is Ok <==> spec_heic_ok(input@, quality),
        r matches Ok(b) ==> b@ == spec_heic_out(input@, quality) && b@.len() > 0,
        !decode_ok(input@) ==> (r matches Err(e) && e is Decode),
{
    let img = match load_image(input) {
        Ok(i) => i,
        Err(_) => return Err(
            CompressionError::Decode(String::from_str("Unsupported HEIC format or corrupted file")),
        ),
    };
    let (rgb, w, h) = to_rgb8_raw(&img);
    if w == 0 || h == 0 {
        return Err(CompressionError::Decode(String::from_str("image has no pixels")));
    }
    let jpeg = match encode_rgb_jpeg(rgb, w, h) {
        Ok(b) => b,
        Err(m) => return Err(CompressionError::Encode(m)),
    };
    compress_jpeg_bytes(&jpeg, quality)
}

/// PNG conversion: the quantizing PNG path with the given range and
/// post-pass choice.
pub fn to_png_bytes(input: &Vec<u8>, quality_range: &str, use_oxipng: bool) -> (r: Result<
    Vec<u8>,
    CompressionError,
>)
    ensures
        r is Ok <==> spec_png_lossy_ok(input@, quality_range@, use_oxipng),
        r matches Ok(b) ==> b@ == spec_png_lossy_out(input@, quality_range@, use_oxipng)
            && b@.len() > 0,
        !decode_ok(input@) ==> (r matches Err(e) && e is Decode),
        (r matches Err(e) && e is Encode) ==> decode_ok(input@),
{
    compress_png_bytes(input, quality_range, use_oxipng)
}

/// TIFF re-encode of the decoded image.
pub fn to_tiff_bytes(input: &Vec<u8>) -> (r: Result<Vec<u8>, CompressionError>)
    ensures
        r is Ok <==> spec_tiff_ok(input@),
        r matches Ok(b) ==> b@ == spec_tiff_out(input@) && b@.len() > 0,
        !decode_ok(input@) ==> (r matches Err(e) && e is Decode),
        (r matches Err(e) && e is Encode) ==> decode_ok(input@),
{
    let img = match load_image(input) {
        Ok(i) => i,
        Err(m) => return Err(CompressionError::Decode(m)),
    };
    match encode_tiff(&img) {
        Ok(b) => Ok(b),
        Err(m) => Err(CompressionError::Encode(m)),
    }
}

/// BMP re-encode of the decoded image.
pub fn to_bmp_bytes(input: &Vec<u8>) -> (r: Result<Vec<u8>, CompressionError>)
    ensures
        r is Ok <==> spec_bmp_ok(input@),
        r matches Ok(b) ==> b@ == spec_bmp_out(input@) && b@.len() > 0,
        !decode_ok(input@) ==> (r matches Err(e) && e is Decode),
        (r matches Err(e) && e is Encode) ==> decode_ok(input@),
{
    let img = match load_image(input) {
        Ok(i) => i,
        Err(m) => return Err(CompressionError::Decode(m)),
    };
    match encode_bmp(&img) {
        Ok(b) => Ok(b),
        Err(m) => Err(CompressionError::Encode(m)),
    }
}

/// ICO conversion: resize down to at most 256 by 256 (Lanczos) when larger,
/// then encode as ICO; when the ICO encoder refuses, fall back to PNG bytes
/// with no error surfaced — a deliberate compatibility policy.
pub fn to_ico_bytes(input: &Vec<u8>) -> (r: Result<Vec<u8>, CompressionError>)
    ensures
        r is Ok <==> spec_ico_ok(input@),
        r matches Ok(b) ==> b@ == spec_ico_out(input@) && b@.len() > 0,
        !decode_ok(input@) ==> (r matches Err(e) && e is Decode),
        (r matches Err(e) && e is Encode) ==> decode_ok(input@),
{
    let img = match load_image(input) {
        Ok(i) => i,
        Err(m) => return Err(CompressionError::Decode(m)),
    };
    let w = image_width(&img);
    let h = image_height(&img);
    let resized = if w > 256 || h > 256 {
        resize_lanczos(&img, 256, 256)
    } else {
        img
    };
    match encode_ico(&resized) {
        Ok(b) => Ok(b),
        Err(_) => match encode_png(&resized) {
            Ok(b) => Ok(b),
            Err(m) => Err(CompressionError::Encode(m)),
        },
    }
}

} // verus!
