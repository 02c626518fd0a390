//! Colour values as plain data.
//!
//! The host engine mixes colours in floating point; this crate only ever
//! picks and adjusts channel values, so a colour is carried as integers:
//! milli-scaled channels (1000 is a full channel; more overdrives a
//! high-dynamic-range display) or the 8-bit channels of a palette entry.

use vstd::prelude::*;

verus! {

/// A colour, in the colour space the scene asked for.
#[derive(Clone, Copy, Debug, PartialEq, Eq, Structural)]
pub enum ColorSpec {
    /// Non-linear sRGB channels with alpha, milli scale.
    Srgba { red: i64, green: i64, blue: i64, alpha: i64 },
    /// Linear RGB channels, milli scale.
    LinearRgb { red: i64, green: i64, blue: i64 },
    /// Hue in milli degrees, saturation and lightness in milli.
    Hsl { hue: i64, saturation: i64, lightness: i64 },
    /// A palette colour given by its 8-bit sRGB channels.
    SrgbU8 { red8: u8, green8: u8, blue8: u8 },
}

/// How much each sRGB channel of a highlighted tile is driven up, in milli:
/// two full channel widths.
pub const HIGHLIGHT_STEP: i64 = 2000;

/// The sRGB colour of a terrain tile after highlighting: every channel of
/// the tile's current colour raised by [`HIGHLIGHT_STEP`]. The host hands in
/// the tile's colour converted to sRGB channels and stores the result back
/// on the tile's material.
pub fn brightened_srgb(red: i64, green: i64, blue: i64) -> (r: (i64, i64, i64))
    requires
        -1_000_000_000 <= red <= 1_000_000_000,
        -1_000_000_000 <= green <= 1_000_000_000,
        -1_000_000_000 <= blue <= 1_000_000_000,
    ensures
        r.0 == red + HIGHLIGHT_STEP,
        r.1 == green + HIGHLIGHT_STEP,
        r.2 == blue + HIGHLIGHT_STEP,
{
    (red + HIGHLIGHT_STEP, green + HIGHLIGHT_STEP, blue + HIGHLIGHT_STEP)
}

} // verus!
