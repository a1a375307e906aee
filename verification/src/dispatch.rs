//! The dispatcher: resolve the route for one call, run exactly one encoder,
//! and normalize the outcome into `(bytes, mime type)`.  The batch variant
//! applies one options record to an ordered list of inputs, turning each
//! per-item failure into a zero-size placeholder instead of aborting.
//!
//! `dispatch_ok` and `dispatch_out` below give the dispatcher an exact
//! functional specification: which calls succeed and what bytes come back
//! are pure functions of the input bytes, the extension hint and the
//! options, so two equal calls return equal results.

use vstd::prelude::*;
use vstd::string::*;

use crate::encode::{
    compress_jpeg_bytes, compress_png_bytes, heic_to_jpeg_bytes, reencode_png_lossless,
    spec_avif_ok, spec_avif_out, spec_bmp_ok, spec_bmp_out, spec_heic_ok, spec_heic_out,
    spec_ico_ok, spec_ico_out, spec_jpeg_ok, spec_jpeg_out, spec_png_lossless_ok,
    spec_png_lossless_out, spec_png_lossy_ok, spec_png_lossy_out, spec_tiff_ok, spec_tiff_out,
    spec_webp_ok, spec_webp_out, to_avif_bytes, to_bmp_bytes, to_ico_bytes, to_png_bytes,
    to_tiff_bytes, to_webp_bytes,
};
use crate::errors::CompressionError;
use crate::imgcodec::decode_ok;
use crate::options::{CompressionOptions, OptionsView};
use crate::quality::{
    parse_quality_range, quality_scalar, spec_parse_quality_range, spec_quality_scalar,
};
use crate::route::{mime_of_route, route_of, select_route, Route};

verus! {

/// The scalar quality an options record derives for the single-knob codecs.
pub open spec fn opts_scalar(o: OptionsView) -> u8 {
    spec_quality_scalar(
        spec_parse_quality_range(o.png_quality).0,
        spec_parse_quality_range(o.png_quality).1,
    )
}

/// When a dispatch call succeeds: the selected route's whole encoder
/// pipeline accepts the input.
pub open spec fn dispatch_ok(input: Seq<u8>, ext: Seq<char>, o: OptionsView) -> bool {
    match route_of(ext, o) {
        Route::HeicToJpeg => spec_heic_ok(input, 85),
        Route::ToWebp => spec_webp_ok(input, opts_scalar(o)),
        Route::ToAvif => spec_avif_ok(input, opts_scalar(o)),
        Route::ToJpeg => spec_jpeg_ok(input, opts_scalar(o)),
        Route::ToPng => spec_png_lossy_ok(input, o.png_quality, o.oxipng),
        Route::ToTiff => spec_tiff_ok(input),
        Route::ToBmp => spec_bmp_ok(input),
        Route::ToIco => spec_ico_ok(input),
        Route::SourcePng => if o.png_lossy {
            spec_png_lossy_ok(input, o.png_quality, o.oxipng)
        } else {
            spec_png_lossless_ok(input)
        },
        Route::SourceJpeg => spec_jpeg_ok(input, 75),
        Route::FallbackPng => spec_png_lossy_ok(input, o.png_quality, o.oxipng),
    }
}

/// What a successful dispatch call returns: the selected route's encoder
/// output for this input.
pub open spec fn dispatch_out(input: Seq<u8>, ext: Seq<char>, o: OptionsView) -> Seq<u8> {
    match route_of(ext, o) {
        Route::HeicToJpeg => spec_heic_out(input, 85),
        Route::ToWebp => spec_webp_out(input, opts_scalar(o)),
        Route::ToAvif => spec_avif_out(input, opts_scalar(o)),
        Route::ToJpeg => spec_jpeg_out(input, opts_scalar(o)),
        Route::ToPng => spec_png_lossy_out(input, o.png_quality, o.oxipng),
        Route::ToTiff => spec_tiff_out(input),
        Route::ToBmp => spec_bmp_out(input),
        Route::ToIco => spec_ico_out(input),
        Route::SourcePng => if o.png_lossy {
            spec_png_lossy_out(input, o.png_quality, o.oxipng)
        } else {
            spec_png_lossless_out(input)
        },
        Route::SourceJpeg => spec_jpeg_out(input, 75),
        Route::FallbackPng => spec_png_lossy_out(input, o.png_quality, o.oxipng),
    }
}

/// Compress one image in process.
///
/// `ext_lower` is the lowercased file-extension hint; the route — and with it
/// the MIME type of a successful result — is a pure function of the hint and
/// the options (see `route_of`).  The call succeeds exactly when the routed
/// encoder pipeline accepts the input, the bytes of a successful result are
/// that pipeline's output and are never empty, and bytes that do not decode
/// as an image always give a decode error.
pub fn compress_image_inproc(
    input_bytes: &Vec<u8>,
    ext_lower: &str,
    opts: &CompressionOptions,
) -> (r: Result<(Vec<u8>, String), CompressionError>)
    ensures
        r is Ok <==> dispatch_ok(input_bytes@, ext_lower@, opts@),
        r matches Ok(p) ==> {
            &&& p.0@ == dispatch_out(input_bytes@, ext_lower@, opts@)
            &&& p.1@ == mime_of_route(route_of(ext_lower@, opts@))
            &&& p.0@.len() > 0
            &&& decode_ok(input_bytes@)
        },
        !decode_ok(input_bytes@) ==> (r matches Err(e) && e is Decode),
        (r matches Err(e) && e is Encode) ==> decode_ok(input_bytes@),
{
    let route = select_route(ext_lower, opts);
    match route {
        Route::HeicToJpeg => match heic_to_jpeg_bytes(input_bytes, 85) {
            Ok(b) => Ok((b, String::from_str("image/jpeg"))),
            Err(e) => Err(e),
        },
        Route::ToWebp => {
            let (min_q, max_q) = parse_quality_range(opts.png_quality.as_str());
            match to_webp_bytes(input_bytes, quality_scalar(min_q, max_q)) {
                Ok(b) => Ok((b, String::from_str("image/webp"))),
                Err(e) => Err(e),
            }
        },
        Route::ToAvif => {
            let (min_q, max_q) = parse_quality_range(opts.png_quality.as_str());
            match to_avif_bytes(input_bytes, quality_scalar(min_q, max_q)) {
                Ok(b) => Ok((b, String::from_str("image/avif"))),
                Err(e) => Err(e),
            }
        },
        Route::ToJpeg => {
            let (min_q, max_q) = parse_quality_range(opts.png_quality.as_str());
            match compress_jpeg_bytes(input_bytes, quality_scalar(min_q, max_q)) {
                Ok(b) => Ok((b, String::from_str("image/jpeg"))),
                Err(e) => Err(e),
            }
        },
        Route::ToPng => match to_png_bytes(input_bytes, opts.png_quality.as_str(), opts.oxipng) {
            Ok(b) => Ok((b, String::from_str("image/png"))),
            Err(e) => Err(e),
        },
        Route::ToTiff => match to_tiff_bytes(input_bytes) {
            Ok(b) => Ok((b, String::from_str("image/tiff"))),
            Err(e) => Err(e),
        },
        Route::ToBmp => match to_bmp_bytes(input_bytes) {
            Ok(b) => Ok((b, String::from_str("image/bmp"))),
            Err(e) => Err(e),
        },
        Route::ToIco => match to_ico_bytes(input_bytes) {
            Ok(b) => Ok((b, String::from_str("image/x-icon"))),
            Err(e) => Err(e),
        },
        Route::SourcePng => {
            let res = if opts.png_lossy {
                compress_png_bytes(input_bytes, opts.png_quality.as_str(), opts.oxipng)
            } else {
                reencode_png_lossless(input_bytes)
            };
            match res {
                Ok(b) => Ok((b, String::from_str("image/png"))),
                Err(e) => Err(e),
            }
        },
        Route::SourceJpeg => match compress_jpeg_bytes(input_bytes, 75) {
            Ok(b) => Ok((b, String::from_str("image/jpeg"))),
            Err(e) => Err(e),
        },
        Route::FallbackPng => match compress_png_bytes(
            input_bytes,
            opts.png_quality.as_str(),
            opts.oxipng,
        ) {
            Ok(b) => Ok((b, String::from_str("image/png"))),
            Err(e) => Err(e),
        },
    }
}

/// One entry of a batch result: the compressed bytes and MIME type when the
/// item succeeded, a zero-size placeholder (empty bytes, empty MIME type)
/// when it failed.
#[derive(Debug, Clone)]
pub struct BatchItemResult {
    pub data: Vec<u8>,
    pub mime_type: String,
    pub ok: bool,
}

/// Compress an ordered list of `(bytes, extension)` pairs under one options
/// record.  The output has exactly one slot per input, in input order; a
/// slot succeeds exactly when the routed compression of its item does, and a
/// failing item never aborts the batch: its slot holds a zero-size
/// placeholder.
pub fn compress_batch_inproc(
    inputs: &Vec<(Vec<u8>, String)>,
    opts: &CompressionOptions,
) -> (r: Vec<BatchItemResult>)
    ensures
        r@.len() == inputs@.len(),
        forall|i: int|
            0 <= i < r@.len() ==> ((#[trigger] r@[i]).ok <==> dispatch_ok(
                inputs@[i].0@,
                inputs@[i].1@,
                opts@,
            )),
        forall|i: int|
            0 <= i < r@.len() ==> (#[trigger] r@[i]).ok ==> {
                &&& r@[i].data@ == dispatch_out(inputs@[i].0@, inputs@[i].1@, opts@)
                &&& r@[i].data@.len() > 0
                &&& r@[i].mime_type@ == mime_of_route(route_of(inputs@[i].1@, opts@))
                &&& decode_ok(inputs@[i].0@)
            },
        forall|i: int|
            0 <= i < r@.len() ==> !(#[trigger] r@[i]).ok ==> {
                &&& r@[i].data@.len() == 0
                &&& r@[i].mime_type@.len() == 0
            },
        forall|i: int| 0 <= i < r@.len() && !decode_ok(inputs@[i].0@) ==> !(#[trigger] r@[i]).ok,
{
    let n = inputs.len();
    let mut r: Vec<BatchItemResult> = Vec::new();
    let mut i: usize = 0;
    while i < n
        invariant
            i <= n,
            n == inputs@.len(),
            r@.len() == i,
            forall|t: int|
                0 <= t < i ==> ((#[trigger] r@[t]).ok <==> dispatch_ok(
                    inputs@[t].0@,
                    inputs@[t].1@,
                    opts@,
                )),
            forall|t: int|
                0 <= t < i ==> (#[trigger] r@[t]).ok ==> {
                    &&& r@[t].data@ == dispatch_out(inputs@[t].0@, inputs@[t].1@, opts@)
                    &&& r@[t].data@.len() > 0
                    &&& r@[t].mime_type@ == mime_of_route(route_of(inputs@[t].1@, opts@))
                    &&& decode_ok(inputs@[t].0@)
                },
            forall|t: int|
                0 <= t < i ==> !(#[trigger] r@[t]).ok ==> {
                    &&& r@[t].data@.len() == 0
                    &&& r@[t].mime_type@.len() == 0
                },
            forall|t: int| 0 <= t < i && !decode_ok(inputs@[t].0@) ==> !(#[trigger] r@[t]).ok,
        decreases n - i,
    {
        let pair = &inputs[i];
        match compress_image_inproc(&pair.0, pair.1.as_str(), opts) {
            Ok((data, mime_type)) => {
                r.push(BatchItemResult { data, mime_type, ok: true });
            },
            Err(_) => {
                r.push(BatchItemResult { data: Vec::new(), mime_type: String::new(), ok: false });
            },
        }
        i = i + 1;
    }
    r
}

} // verus!
