//! End-to-end tests of the dispatcher and the format encoders, run against
//! the real codec libraries.

use image::{DynamicImage, ImageFormat};
use imagepress::dispatch::{compress_batch_inproc, compress_image_inproc};
use imagepress::encode::{to_avif_bytes, to_bmp_bytes, to_ico_bytes, to_tiff_bytes, to_webp_bytes};
use imagepress::options::CompressionOptions;
use std::io::Cursor;

fn create_test_png() -> Vec<u8> {
    let img = image::ImageBuffer::from_fn(100, 100, |_, _| image::Rgb([255u8, 0, 0]));
    let dynamic_img = DynamicImage::ImageRgb8(img);
    let mut bytes = Vec::new();
    dynamic_img
        .write_to(&mut Cursor::new(&mut bytes), ImageFormat::Png)
        .unwrap();
    bytes
}

fn create_test_jpeg() -> Vec<u8> {
    let img = image::ImageBuffer::from_fn(100, 100, |_, _| image::Rgb([0u8, 0, 255]));
    let dynamic_img = DynamicImage::ImageRgb8(img);
    let mut bytes = Vec::new();
    dynamic_img
        .write_to(&mut Cursor::new(&mut bytes), ImageFormat::Jpeg)
        .unwrap();
    bytes
}

fn create_small_png() -> Vec<u8> {
    let img = image::ImageBuffer::from_fn(16, 16, |x, y| {
        image::Rgb([(x * 16) as u8, (y * 16) as u8, 128u8])
    });
    let dynamic_img = DynamicImage::ImageRgb8(img);
    let mut bytes = Vec::new();
    dynamic_img
        .write_to(&mut Cursor::new(&mut bytes), ImageFormat::Png)
        .unwrap();
    bytes
}

#[test]
fn test_png_compression() {
    let png_data = create_test_png();
    let opts = CompressionOptions {
        png_lossy: true,
        png_quality: "50-80".to_string(),
        oxipng: true,
        ..Default::default()
    };

    let result = compress_image_inproc(&png_data, "png", &opts);
    assert!(result.is_ok());

    let (compressed, mime_type) = result.unwrap();
    assert_eq!(mime_type, "image/png");
    assert!(compressed.len() > 0);
}

#[test]
fn test_jpeg_compression() {
    let jpeg_data = create_test_jpeg();
    let opts = CompressionOptions::default();

    let result = compress_image_inproc(&jpeg_data, "jpeg", &opts);
    assert!(result.is_ok());

    let (compressed, mime_type) = result.unwrap();
    assert_eq!(mime_type, "image/jpeg");
    assert!(compressed.len() > 0);
}

#[test]
fn dispatch_priority_webp_wins_over_jpeg() {
    let png_data = create_small_png();
    let mut opts = CompressionOptions::default();
    opts.to_webp = true;
    opts.to_jpeg = true;

    let (bytes, mime_type) = compress_image_inproc(&png_data, "png", &opts).unwrap();
    assert_eq!(mime_type, "image/webp");
    // a WebP file starts with a RIFF header, so the bytes really were encoded
    assert_eq!(&bytes[0..4], b"RIFF");
}

#[test]
fn heic_override_ignores_conversion_flags() {
    // the content is sniffed, so PNG bytes under a heic hint exercise the
    // override without a real HEIC decoder
    let png_data = create_small_png();
    let mut opts = CompressionOptions::default();
    opts.to_png = true;

    let (bytes, mime_type) = compress_image_inproc(&png_data, "heic", &opts).unwrap();
    assert_eq!(mime_type, "image/jpeg");
    // a JPEG stream starts with the SOI marker
    assert_eq!(&bytes[0..2], &[0xFF, 0xD8]);
}

#[test]
fn lossless_png_round_trip_keeps_dimensions() {
    let png_data = create_test_png();
    let mut opts = CompressionOptions::default();
    opts.png_lossy = false;

    let (bytes, mime_type) = compress_image_inproc(&png_data, "png", &opts).unwrap();
    assert_eq!(mime_type, "image/png");
    assert_eq!(&bytes[0..4], &[0x89, b'P', b'N', b'G']);

    let round_tripped = image::load_from_memory(&bytes).unwrap();
    assert_eq!(round_tripped.width(), 100);
    assert_eq!(round_tripped.height(), 100);
}

#[test]
fn lossy_recompression_does_not_crash() {
    // compressing an already-compressed output again must terminate cleanly;
    // byte-identical output is not expected of a lossy path
    let jpeg_data = create_test_jpeg();
    let opts = CompressionOptions::default();

    let (once, _) = compress_image_inproc(&jpeg_data, "jpeg", &opts).unwrap();
    let twice = compress_image_inproc(&once, "jpeg", &opts);
    assert!(twice.is_ok());
    assert!(twice.unwrap().0.len() > 0);
}

#[test]
fn batch_keeps_order_and_turns_failures_into_placeholders() {
    let inputs = vec![
        (create_small_png(), "png".to_string()),
        (Vec::new(), "png".to_string()),
        (create_test_jpeg(), "jpeg".to_string()),
    ];
    let opts = CompressionOptions::default();

    let results = compress_batch_inproc(&inputs, &opts);
    assert_eq!(results.len(), 3);

    assert!(results[0].ok);
    assert_eq!(results[0].mime_type, "image/png");
    assert!(results[0].data.len() > 0);

    // the empty item fails without aborting the batch: a zero-size placeholder
    assert!(!results[1].ok);
    assert_eq!(results[1].data.len(), 0);
    assert_eq!(results[1].mime_type, "");

    assert!(results[2].ok);
    assert_eq!(results[2].mime_type, "image/jpeg");
    assert!(results[2].data.len() > 0);
}

#[test]
fn garbage_input_gives_typed_errors() {
    // pseudo-random garbage up to 10,000 bytes must end in a typed error,
    // never a panic, under both extension hints
    let mut state: u32 = 0x12345678;
    let mut garbage = Vec::with_capacity(10_000);
    for _ in 0..10_000 {
        state = state.wrapping_mul(1664525).wrapping_add(1013904223);
        garbage.push((state >> 24) as u8);
    }
    let opts = CompressionOptions::default();

    for ext in ["png", "jpg"] {
        let result = compress_image_inproc(&garbage, ext, &opts);
        assert!(result.is_err());
        assert!(result.unwrap_err().is_decode());
    }
}

#[test]
fn empty_input_is_a_decode_error() {
    let opts = CompressionOptions::default();
    let err = compress_image_inproc(&Vec::new(), "png", &opts).unwrap_err();
    assert!(err.is_decode());
    assert!(!err.message().is_empty());
}

#[test]
fn oversize_webp_is_an_encode_error() {
    // 16384 exceeds the WebP dimension limit of 16383
    let img = image::ImageBuffer::from_fn(16384, 1, |_, _| image::Rgb([10u8, 20, 30]));
    let mut bytes = Vec::new();
    DynamicImage::ImageRgb8(img)
        .write_to(&mut Cursor::new(&mut bytes), ImageFormat::Png)
        .unwrap();

    let err = to_webp_bytes(&bytes, 65).unwrap_err();
    assert!(err.is_encode());
}

#[test]
fn unknown_extension_falls_back_to_png() {
    let jpeg_data = create_test_jpeg();
    let opts = CompressionOptions::default();

    let (bytes, mime_type) = compress_image_inproc(&jpeg_data, "xyz", &opts).unwrap();
    assert_eq!(mime_type, "image/png");
    assert_eq!(&bytes[0..4], &[0x89, b'P', b'N', b'G']);
}

#[test]
fn tiff_and_bmp_conversions_encode() {
    let png_data = create_small_png();

    let tiff = to_tiff_bytes(&png_data).unwrap();
    assert!(tiff.len() > 0);
    // TIFF starts with a byte-order mark, II or MM
    assert!(&tiff[0..2] == b"II" || &tiff[0..2] == b"MM");

    let bmp = to_bmp_bytes(&png_data).unwrap();
    assert_eq!(&bmp[0..2], b"BM");
}

#[test]
fn ico_conversion_resizes_large_images() {
    // 400 pixels wide: the ICO path must resize down to at most 256
    let img = image::ImageBuffer::from_fn(400, 40, |_, _| image::Rgba([0u8, 128, 0, 255]));
    let mut bytes = Vec::new();
    DynamicImage::ImageRgba8(img)
        .write_to(&mut Cursor::new(&mut bytes), ImageFormat::Png)
        .unwrap();

    let ico = to_ico_bytes(&bytes).unwrap();
    // an ICO file starts with the reserved-zero and type-1 header
    assert_eq!(&ico[0..4], &[0, 0, 1, 0]);
    let decoded = image::load_from_memory(&ico).unwrap();
    assert!(decoded.width() <= 256 && decoded.height() <= 256);
}

#[test]
fn avif_quality_scalar_is_clamped_not_fatal() {
    // a "0-0" range is valid per the quality model; the AVIF knob starts at
    // 1, so the scalar is clamped rather than handed through
    let png_data = create_small_png();
    let avif = to_avif_bytes(&png_data, 0).unwrap();
    assert_eq!(&avif[4..8], b"ftyp");

    let mut opts = CompressionOptions::default();
    opts.to_avif = true;
    opts.png_quality = "0-0".to_string();
    let (bytes, mime_type) = compress_image_inproc(&png_data, "png", &opts).unwrap();
    assert_eq!(mime_type, "image/avif");
    assert!(bytes.len() > 0);
}

#[test]
fn avif_conversion_encodes() {
    let png_data = create_small_png();
    let avif = to_avif_bytes(&png_data, 65).unwrap();
    assert!(avif.len() > 0);
    // an AVIF file carries the ftyp box near the start
    assert_eq!(&avif[4..8], b"ftyp");
}

#[test]
fn malformed_range_never_fails_the_png_path() {
    // an inverted range is malformed; the documented leniency means the call
    // behaves as with the default range instead of failing
    let png_data = create_small_png();
    let opts = CompressionOptions {
        png_quality: "80-20".to_string(),
        oxipng: false,
        ..Default::default()
    };
    let (bytes, mime_type) = compress_image_inproc(&png_data, "png", &opts).unwrap();
    assert_eq!(mime_type, "image/png");
    assert_eq!(&bytes[0..4], &[0x89, b'P', b'N', b'G']);
}

#[test]
fn quantized_png_with_max_compression_presets() {
    let png_data = create_test_png();
    let opts = CompressionOptions {
        png_lossy: true,
        png_quality: "20-60".to_string(),
        oxipng: false,
        ..Default::default()
    };

    let (bytes, mime_type) = compress_image_inproc(&png_data, "png", &opts).unwrap();
    assert_eq!(mime_type, "image/png");
    assert_eq!(&bytes[0..4], &[0x89, b'P', b'N', b'G']);
}

#[test]
fn to_png_bytes_quantizes_any_source() {
    let jpeg_data = create_test_jpeg();
    let png = imagepress::encode::to_png_bytes(&jpeg_data, "50-80", false).unwrap();
    assert_eq!(&png[0..4], &[0x89, b'P', b'N', b'G']);
}
