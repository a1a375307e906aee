//! Verified core of an image-compression service.
//!
//! Callers hand the engine raw image bytes, a lowercased file-extension hint
//! and a `CompressionOptions` record; they receive compressed bytes plus the
//! resulting MIME type, or a typed failure.  The quality model, the options
//! model, the route selection and the shape of every encoder pipeline are
//! verified; the codec calls themselves (image, imagequant, mozjpeg, webp,
//! ravif, oxipng) stand behind small trusted wrappers.

pub mod api;
pub mod codecs;
pub mod dispatch;
pub mod encode;
pub mod errors;
pub mod imgcodec;
pub mod options;
pub mod quality;
pub mod quantize;
pub mod route;
pub mod text;

pub use api::{ApiError, Config, ErrorResponse};
pub use dispatch::{compress_batch_inproc, compress_image_inproc, BatchItemResult};
pub use encode::{
    compress_jpeg_bytes, compress_png_bytes, heic_to_jpeg_bytes, reencode_png_lossless,
    to_avif_bytes, to_bmp_bytes, to_ico_bytes, to_png_bytes, to_tiff_bytes, to_webp_bytes,
};
pub use errors::CompressionError;
pub use options::CompressionOptions;
pub use quality::{compression_level_to_range, parse_quality_range, quality_scalar};
pub use route::{ext_from_mime, select_route, Route};
