//! Route selection: from the source-extension hint and the options record to
//! the single encoder that runs, and from the chosen route to the resulting
//! MIME type.
//!
//! The priority contract is fixed: a `heic`/`heif` source always converts to
//! JPEG whatever the options say; otherwise the first set conversion flag in
//! the order webp, avif, jpeg, png, tiff, bmp, ico wins; otherwise the
//! extension picks a default path, with lossy PNG as the catch-all.

use vstd::prelude::*;

use crate::options::{CompressionOptions, OptionsView};
use crate::text::str_eq;

verus! {

/// The encoder selected for one dispatch call.
#[derive(Clone, Copy, Debug, PartialEq, Eq, Structural)]
pub enum Route {
    /// `heic`/`heif` source: decode and re-encode as JPEG at fixed quality 85.
    HeicToJpeg,
    ToWebp,
    ToAvif,
    ToJpeg,
    ToPng,
    ToTiff,
    ToBmp,
    ToIco,
    /// `png` source with no conversion requested: PNG path honoring
    /// `png_lossy` and `oxipng`.
    SourcePng,
    /// `jpg`/`jpeg` source with no conversion requested: JPEG at fixed
    /// quality 75.
    SourceJpeg,
    /// Any other extension: the lossy PNG path as the default catch-all.
    FallbackPng,
}

/// The selection algorithm, first match wins.
pub open spec fn route_of(ext: Seq<char>, o: OptionsView) -> Route {
    if ext == "heic"@ || ext == "heif"@ {
        Route::HeicToJpeg
    } else if o.to_webp {
        Route::ToWebp
    } else if o.to_avif {
        Route::ToAvif
    } else if o.to_jpeg {
        Route::ToJpeg
    } else if o.to_png {
        Route::ToPng
    } else if o.to_tiff {
        Route::ToTiff
    } else if o.to_bmp {
        Route::ToBmp
    } else if o.to_ico {
        Route::ToIco
    } else if ext == "png"@ {
        Route::SourcePng
    } else if ext == "jpg"@ || ext == "jpeg"@ {
        Route::SourceJpeg
    } else {
        Route::FallbackPng
    }
}

/// The canonical MIME type of what each route produces.
pub open spec fn mime_of_route(r: Route) -> Seq<char> {
    match r {
        Route::HeicToJpeg => "image/jpeg"@,
        Route::ToWebp => "image/webp"@,
        Route::ToAvif => "image/avif"@,
        Route::ToJpeg => "image/jpeg"@,
        Route::ToPng => "image/png"@,
        Route::ToTiff => "image/tiff"@,
        Route::ToBmp => "image/bmp"@,
        Route::ToIco => "image/x-icon"@,
        Route::SourcePng => "image/png"@,
        Route::SourceJpeg => "image/jpeg"@,
        Route::FallbackPng => "image/png"@,
    }
}

/// Resolve the route for one call from the lowercased extension hint and the
/// options record.
pub fn select_route(ext_lower: &str, opts: &CompressionOptions) -> (r: Route)
    ensures
        r == route_of(ext_lower@, opts@),
{
    if str_eq(ext_lower, "heic") || str_eq(ext_lower, "heif") {
        Route::HeicToJpeg
    } else if opts.to_webp {
        Route::ToWebp
    } else if opts.to_avif {
        Route::ToAvif
    } else if opts.to_jpeg {
        Route::ToJpeg
    } else if opts.to_png {
        Route::ToPng
    } else if opts.to_tiff {
        Route::ToTiff
    } else if opts.to_bmp {
        Route::ToBmp
    } else if opts.to_ico {
        Route::ToIco
    } else if str_eq(ext_lower, "png") {
        Route::SourcePng
    } else if str_eq(ext_lower, "jpg") || str_eq(ext_lower, "jpeg") {
        Route::SourceJpeg
    } else {
        Route::FallbackPng
    }
}

/// The file extension conventionally used for each canonical MIME type.
pub open spec fn spec_ext_from_mime(mime: Seq<char>) -> Option<Seq<char>> {
    if mime == "image/webp"@ {
        Some("webp"@)
    } else if mime == "image/avif"@ {
        Some("avif"@)
    } else if mime == "image/jpeg"@ {
        Some("jpg"@)
    } else if mime == "image/png"@ {
        Some("png"@)
    } else if mime == "image/tiff"@ {
        Some("tiff"@)
    } else if mime == "image/bmp"@ {
        Some("bmp"@)
    } else if mime == "image/x-icon"@ {
        Some("ico"@)
    } else {
        None
    }
}

/// Map a canonical MIME type back to its conventional file extension.
pub fn ext_from_mime(mime: &str) -> (r: Option<&'static str>)
    ensures
        match r {
            Some(e) => spec_ext_from_mime(mime@) == Some(e@),
            None => spec_ext_from_mime(mime@) is None,
        },
{
    if str_eq(mime, "image/webp") {
        Some("webp")
    } else if str_eq(mime, "image/avif") {
        Some("avif")
    } else if str_eq(mime, "image/jpeg") {
        Some("jpg")
    } else if str_eq(mime, "image/png") {
        Some("png")
    } else if str_eq(mime, "image/tiff") {
        Some("tiff")
    } else if str_eq(mime, "image/bmp") {
        Some("bmp")
    } else if str_eq(mime, "image/x-icon") {
        Some("ico")
    } else {
        None
    }
}

// ---------------------------------------------------------------------------
// Laws
// ---------------------------------------------------------------------------

/// Dispatch priority: whenever both the WebP and the JPEG conversion are
/// requested, the WebP encoder wins and the result type is `image/webp`.
/// This holds for every source extension not subject to the HEIC override
/// (for a `heic` or `heif` source the override wins and the result is JPEG).
pub proof fn lemma_webp_priority(ext: Seq<char>, o: OptionsView)
    requires
        o.to_webp,
        o.to_jpeg,
        ext != "heic"@,
        ext != "heif"@,
    ensures
        route_of(ext, o) == Route::ToWebp,
        mime_of_route(route_of(ext, o)) == "image/webp"@,
{
}

/// Source-format override: a `heic` or `heif` source always routes to the
/// HEIC-to-JPEG conversion, whatever conversion flags the options carry.
pub proof fn lemma_heic_override(ext: Seq<char>, o: OptionsView)
    requires
        ext == "heic"@ || ext == "heif"@,
    ensures
        route_of(ext, o) == Route::HeicToJpeg,
        mime_of_route(route_of(ext, o)) == "image/jpeg"@,
{
}

} // verus!
