//! Trusted wrapper around `imagequant` (libimagequant): palette quantization
//! of RGBA pixel buffers.  The speed, palette-size, quality and dithering
//! settings are decided by verified code and passed in as plain values, so
//! the quantizer's outcome is a pure function of the pixels and the settings
//! (the crate is built without its thread pool), and both the palette and
//! the index buffer carry names the callers' contracts compose.

use vstd::prelude::*;

verus! {

/// Whether quantization and remapping succeed for these pixels and settings.
/// False when a setting is out of the library's range (speed outside 1 to
/// 10, palette bound outside 2 to 256, minimum quality above target or
/// target above 100) and when no palette reaches the minimum quality.
pub uninterp spec fn quant_ok(
    px: Seq<u8>,
    w: u32,
    h: u32,
    min_q: u8,
    max_q: u8,
    speed: i32,
    colors: u32,
    dithering: u8,
) -> bool;

/// The palette remapping returns, flattened to 4 bytes per entry.
pub uninterp spec fn quant_palette(
    px: Seq<u8>,
    w: u32,
    h: u32,
    min_q: u8,
    max_q: u8,
    speed: i32,
    colors: u32,
    dithering: u8,
) -> Seq<u8>;

/// The per-pixel palette indices the remapping returns.
pub uninterp spec fn quant_index(
    px: Seq<u8>,
    w: u32,
    h: u32,
    min_q: u8,
    max_q: u8,
    speed: i32,
    colors: u32,
    dithering: u8,
) -> Seq<u8>;

/// Relies on `imagequant::Attributes::new`, `set_speed`, `set_max_colors`,
/// `set_quality`, `Image::new_borrowed` (which checks that the buffer holds
/// `width * height` RGBA pixels), `Attributes::quantize`,
/// `QuantizationResult::set_dithering_level` and
/// `QuantizationResult::remapped`: every failure comes back as an error, and
/// remapping returns the palette plus exactly one palette index per pixel.
/// Whether each index really addresses a palette entry is checked by the
/// caller, not assumed.  `dithering` is handed to the dithering-level knob
/// as given (the knob's full strength is 1).
#[verifier::external_body]
pub(crate) fn liq_quantize(
    pixels: &[u8],
    w: u32,
    h: u32,
    min_q: u8,
    max_q: u8,
    speed: i32,
    colors: u32,
    dithering: u8,
) -> (r: Result<(Vec<u8>, Vec<u8>), String>)
    requires
        pixels@.len() == 4 * (w as int) * (h as int),
    ensures
        r.is_ok() == quant_ok(pixels@, w, h, min_q, max_q, speed, colors, dithering),
        r matches Ok(p) ==> {
            &&& p.0@ == quant_palette(pixels@, w, h, min_q, max_q, speed, colors, dithering)
            &&& p.1@ == quant_index(pixels@, w, h, min_q, max_q, speed, colors, dithering)
            &&& p.1@.len() == (w as int) * (h as int)
        },
{
    let e = |e: imagequant::Error| format!("{}", e);
    let mut a = imagequant::Attributes::new();
    a.set_speed(speed).map_err(e)?;
    a.set_max_colors(colors).map_err(e)?;
    a.set_quality(min_q, max_q).map_err(e)?;
    let px = rgb::FromSlice::as_rgba(pixels);
    let mut img = imagequant::Image::new_borrowed(&a, px, w as usize, h as usize, 0u8.into())
        .map_err(e)?;
    let mut res = a.quantize(&mut img).map_err(e)?;
    res.set_dithering_level(dithering.into()).map_err(e)?;
    let (pal, idx) = res.remapped(&mut img).map_err(e)?;
    Ok((rgb::ComponentBytes::as_bytes(pal.as_slice()).to_vec(), idx))
}

} // verus!
