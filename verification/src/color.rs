//! Colours as four bytes: red, green, blue and alpha.

use vstd::prelude::*;

verus! {

/// An RGBA colour.
#[derive(Clone, Copy, Debug, PartialEq, Eq, Structural)]
pub struct Color {
    pub r: u8,
    pub g: u8,
    pub b: u8,
    pub a: u8,
}

impl Color {
    /// The colour with the given channels.
    pub fn from_rgba(r: u8, g: u8, b: u8, a: u8) -> (c: Color)
        ensures
            c == (Color { r, g, b, a }),
    {
        Color { r, g, b, a }
    }
}

/// The neon cyan of letters and sparks.
pub open spec fn cyan() -> Color {
    Color { r: 0, g: 240, b: 255, a: 255 }
}

/// The flash shown when a letter reaches the ground.
pub open spec fn ground_flash() -> Color {
    Color { r: 255, g: 51, b: 102, a: 100 }
}

/// The flash shown when a letter is typed in time.
pub open spec fn hit_flash() -> Color {
    Color { r: 57, g: 255, b: 20, a: 80 }
}

/// The flash shown when a key matches no falling letter.
pub open spec fn miss_flash() -> Color {
    Color { r: 255, g: 51, b: 102, a: 150 }
}

/// The fully transparent colour a fresh session starts with.
pub open spec fn no_flash() -> Color {
    Color { r: 0, g: 0, b: 0, a: 0 }
}

} // verus!
