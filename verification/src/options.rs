//! The options model: an immutable per-call record of the requested
//! transformations and quality knobs, plus the lenient field-update logic the
//! front ends use when folding form fields or a named output format into an
//! options record.

use vstd::prelude::*;
use vstd::string::*;

use crate::text::str_eq;

verus! {

/// Compression options for one dispatch call.
///
/// `png_quality` holds a `"<min>-<max>"` range string; the seven `to_*`
/// flags request a conversion into that format, resolved by a fixed priority
/// order when several are set.
#[derive(Debug, Clone)]
pub struct CompressionOptions {
    pub png_lossy: bool,
    pub png_quality: String,
    pub oxipng: bool,
    pub to_webp: bool,
    pub to_avif: bool,
    pub to_jpeg: bool,
    pub to_png: bool,
    pub to_tiff: bool,
    pub to_bmp: bool,
    pub to_ico: bool,
}

/// The mathematical view of an options record: the quality range as a
/// character sequence, everything else as plain booleans.
pub ghost struct OptionsView {
    pub png_lossy: bool,
    pub png_quality: Seq<char>,
    pub oxipng: bool,
    pub to_webp: bool,
    pub to_avif: bool,
    pub to_jpeg: bool,
    pub to_png: bool,
    pub to_tiff: bool,
    pub to_bmp: bool,
    pub to_ico: bool,
}

impl View for CompressionOptions {
    type V = OptionsView;

    open spec fn view(&self) -> OptionsView {
        OptionsView {
            png_lossy: self.png_lossy,
            png_quality: self.png_quality@,
            oxipng: self.oxipng,
            to_webp: self.to_webp,
            to_avif: self.to_avif,
            to_jpeg: self.to_jpeg,
            to_png: self.to_png,
            to_tiff: self.to_tiff,
            to_bmp: self.to_bmp,
            to_ico: self.to_ico,
        }
    }
}

/// The default record: lossy PNG at range `50-80` with the lossless
/// post-pass on, and no conversion requested.
pub open spec fn spec_default_options() -> OptionsView {
    OptionsView {
        png_lossy: true,
        png_quality: "50-80"@,
        oxipng: true,
        to_webp: false,
        to_avif: false,
        to_jpeg: false,
        to_png: false,
        to_tiff: false,
        to_bmp: false,
        to_ico: false,
    }
}

impl Default for CompressionOptions {
    fn default() -> (r: Self)
        ensures
            r@ == spec_default_options(),
    {
        CompressionOptions {
            png_lossy: true,
            png_quality: String::from_str("50-80"),
            oxipng: true,
            to_webp: false,
            to_avif: false,
            to_jpeg: false,
            to_png: false,
            to_tiff: false,
            to_bmp: false,
            to_ico: false,
        }
    }
}

/// What `str::parse::<bool>` accepts: exactly `true` and `false`.
pub open spec fn spec_parse_bool(s: Seq<char>) -> Option<bool> {
    if s == "true"@ {
        Some(true)
    } else if s == "false"@ {
        Some(false)
    } else {
        None
    }
}

fn parse_bool(s: &str) -> (r: Option<bool>)
    ensures
        r == spec_parse_bool(s@),
{
    if str_eq(s, "true") {
        Some(true)
    } else if str_eq(s, "false") {
        Some(false)
    } else {
        None
    }
}

/// The effect of one named form field on an options record: `png_quality`
/// takes any string; the boolean fields take `true`/`false` and keep a
/// deliberate per-field default on malformed values (`true` for `png_lossy`,
/// `false` for the rest); an unknown name changes nothing.
pub open spec fn spec_apply_option(o: OptionsView, name: Seq<char>, value: Seq<char>) -> OptionsView {
    if name == "png_quality"@ {
        OptionsView { png_quality: value, ..o }
    } else if name == "png_lossy"@ {
        OptionsView {
            png_lossy: match spec_parse_bool(value) {
                Some(b) => b,
                None => true,
            },
            ..o
        }
    } else if name == "oxipng"@ {
        OptionsView { oxipng: parsed_or_false(value), ..o }
    } else if name == "to_webp"@ {
        OptionsView { to_webp: parsed_or_false(value), ..o }
    } else if name == "to_avif"@ {
        OptionsView { to_avif: parsed_or_false(value), ..o }
    } else if name == "to_jpeg"@ {
        OptionsView { to_jpeg: parsed_or_false(value), ..o }
    } else if name == "to_png"@ {
        OptionsView { to_png: parsed_or_false(value), ..o }
    } else {
        o
    }
}

pub open spec fn parsed_or_false(value: Seq<char>) -> bool {
    match spec_parse_bool(value) {
        Some(b) => b,
        None => false,
    }
}

impl CompressionOptions {
    /// Fold one named form field into the record, with the documented
    /// leniency: a value that is not a boolean keeps the field's default.
    pub fn apply_option(&mut self, name: &str, value: &str)
        ensures
            final(self)@ == spec_apply_option(old(self)@, name@, value@),
    {
        if str_eq(name, "png_quality") {
            self.png_quality = String::from_str(value);
        } else if str_eq(name, "png_lossy") {
            self.png_lossy = match parse_bool(value) {
                Some(b) => b,
                None => true,
            };
        } else if str_eq(name, "oxipng") {
            self.oxipng = parse_bool_or_false(value);
        } else if str_eq(name, "to_webp") {
            self.to_webp = parse_bool_or_false(value);
        } else if str_eq(name, "to_avif") {
            self.to_avif = parse_bool_or_false(value);
        } else if str_eq(name, "to_jpeg") {
            self.to_jpeg = parse_bool_or_false(value);
        } else if str_eq(name, "to_png") {
            self.to_png = parse_bool_or_false(value);
        }
    }

    /// Set the conversion flag for a named output format: one flag per known
    /// name, nothing for `original`, and WebP for anything unrecognized.
    pub fn select_output_format(&mut self, output_format: &str)
        ensures
            final(self)@ == spec_select_output_format(old(self)@, output_format@),
    {
        if str_eq(output_format, "webp") {
            self.to_webp = true;
        } else if str_eq(output_format, "avif") {
            self.to_avif = true;
        } else if str_eq(output_format, "jpeg") {
            self.to_jpeg = true;
        } else if str_eq(output_format, "png") {
            self.to_png = true;
        } else if str_eq(output_format, "tiff") {
            self.to_tiff = true;
        } else if str_eq(output_format, "bmp") {
            self.to_bmp = true;
        } else if str_eq(output_format, "ico") {
            self.to_ico = true;
        } else if str_eq(output_format, "original") {
        } else {
            self.to_webp = true;
        }
    }
}

fn parse_bool_or_false(value: &str) -> (r: bool)
    ensures
        r == parsed_or_false(value@),
{
    match parse_bool(value) {
        Some(b) => b,
        None => false,
    }
}

/// The effect of a named output format: exactly one conversion flag is set
/// for a known name, `original` requests no conversion, and an unrecognized
/// name falls back to WebP.
pub open spec fn spec_select_output_format(o: OptionsView, fmt: Seq<char>) -> OptionsView {
    if fmt == "webp"@ {
        OptionsView { to_webp: true, ..o }
    } else if fmt == "avif"@ {
        OptionsView { to_avif: true, ..o }
    } else if fmt == "jpeg"@ {
        OptionsView { to_jpeg: true, ..o }
    } else if fmt == "png"@ {
        OptionsView { to_png: true, ..o }
    } else if fmt == "tiff"@ {
        OptionsView { to_tiff: true, ..o }
    } else if fmt == "bmp"@ {
        OptionsView { to_bmp: true, ..o }
    } else if fmt == "ico"@ {
        OptionsView { to_ico: true, ..o }
    } else if fmt == "original"@ {
        o
    } else {
        OptionsView { to_webp: true, ..o }
    }
}

} // verus!
