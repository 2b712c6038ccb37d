//! From a brightness byte to an RGB triple: contrast, then grayscale or a
//! hue palette.
use vstd::prelude::*;
use crate::pixels::RgbTriple;

verus! {

/// The number of entries of a hue palette: one per brightness byte.
pub const PALETTE_SIZE: usize = 256;

/// `b * contrast`, clamped to 255.
pub open spec fn contrasted(b: int, contrast: int) -> int {
    if b * contrast > 255 {
        255
    } else {
        b * contrast
    }
}

/// The color of brightness `b`: `(b, b, b)` in grayscale, else the palette's
/// entry for `b` read as a hue.
pub open spec fn color_of(colors_enabled: bool, palette: Seq<RgbTriple>, b: u8) -> RgbTriple {
    if colors_enabled {
        palette[b as int]
    } else {
        (b, b, b)
    }
}

/// Multiplies a brightness byte by `contrast`, saturating at 255.
pub fn apply_contrast(b: u8, contrast: u8) -> (r: u8)
    ensures
        r == contrasted(b as int, contrast as int),
{
    assert(b as int * contrast as int <= 255 * 255) by (nonlinear_arith)
        requires
            b <= 255,
            contrast <= 255,
    ;
    assert(0 <= b as int * contrast as int) by (nonlinear_arith);
    let wide: u16 = b as u16 * contrast as u16;
    if wide > 255 {
        255
    } else {
        wide as u8
    }
}

/// The color of brightness `b`. `palette[h]` is the color of hue `h` on a
/// 0..=255 hue scale, at the image's saturation and value.
pub fn map_color(colors_enabled: bool, palette: &Vec<RgbTriple>, b: u8) -> (r: RgbTriple)
    requires
        colors_enabled ==> palette@.len() == PALETTE_SIZE,
    ensures
        r == color_of(colors_enabled, palette@, b),
        !colors_enabled ==> r.0 == b && r.1 == b && r.2 == b,
{
    if colors_enabled {
        palette[b as usize]
    } else {
        (b, b, b)
    }
}

/// A larger contrast never darkens a grayscale pixel.
pub proof fn contrast_monotonic(b: u8, contrast1: u8, contrast2: u8)
    requires
        contrast1 <= contrast2,
    ensures
        contrasted(b as int, contrast1 as int) <= contrasted(b as int, contrast2 as int),
        color_of(false, Seq::empty(), contrasted(b as int, contrast1 as int) as u8).0
            <= color_of(false, Seq::empty(), contrasted(b as int, contrast2 as int) as u8).0,
{
    assert(b as int * contrast1 as int <= b as int * contrast2 as int) by (nonlinear_arith)
        requires
            contrast1 <= contrast2,
    ;
    assert(0 <= b as int * contrast1 as int) by (nonlinear_arith);
}

} // verus!
