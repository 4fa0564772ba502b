//! Color type for RGB LEDs.
use vstd::prelude::*;

verus! {

/// Represents an RGB color.
#[derive(Debug, Clone, Copy, PartialEq, Eq)]
pub struct Color {
    /// Red component (0-255)
    pub r: u8,
    /// Green component (0-255)
    pub g: u8,
    /// Blue component (0-255)
    pub b: u8,
}

/// The 32-bit APA102 word of a color: red in the top byte, then green, then
/// blue, and a zero low byte.
pub open spec fn apa102_word(c: Color) -> int {
    c.r * 0x100_0000 + c.g * 0x1_0000 + c.b * 0x100
}

impl Default for Color {
    /// Black.
    fn default() -> (c: Self)
        ensures
            c == (Color { r: 0, g: 0, b: 0 }),
    {
        Color { r: 0, g: 0, b: 0 }
    }
}

impl Color {
    /// Create a new color from RGB values.
    pub fn new(r: u8, g: u8, b: u8) -> (c: Self)
        ensures
            c == (Color { r, g, b }),
    {
        Color { r, g, b }
    }

    /// Create a color from a 24-bit RGB value: red from bits 16..24, green
    /// from bits 8..16, blue from bits 0..8; higher bits are ignored.
    pub fn from_rgb24(rgb: u32) -> (c: Self)
        ensures
            c.r == (rgb / 0x1_0000) % 256,
            c.g == (rgb / 0x100) % 256,
            c.b == rgb % 256,
    {
        Color {
            r: ((rgb / 0x1_0000) % 256) as u8,
            g: ((rgb / 0x100) % 256) as u8,
            b: (rgb % 256) as u8,
        }
    }

    /// Convert to a 32-bit value for APA102 LEDs.
    /// Format: 0xRRGGBB00 (red in high bits, blue shifted left by 8)
    pub fn to_apa102_data(&self) -> (w: u32)
        ensures
            w == apa102_word(*self),
    {
        (self.r as u32) * 0x100_0000 + (self.g as u32) * 0x1_0000 + (self.b as u32) * 0x100
    }
}

impl From<(u8, u8, u8)> for Color {
    fn from(rgb: (u8, u8, u8)) -> (c: Self) {
        Color::new(rgb.0, rgb.1, rgb.2)
    }
}

impl vstd::std_specs::convert::FromSpecImpl<(u8, u8, u8)> for Color {
    open spec fn obeys_from_spec() -> bool {
        true
    }

    open spec fn from_spec(rgb: (u8, u8, u8)) -> Color {
        Color { r: rgb.0, g: rgb.1, b: rgb.2 }
    }
}

impl From<Color> for (u8, u8, u8) {
    fn from(color: Color) -> (t: Self) {
        (color.r, color.g, color.b)
    }
}

impl vstd::std_specs::convert::FromSpecImpl<Color> for (u8, u8, u8) {
    open spec fn obeys_from_spec() -> bool {
        true
    }

    open spec fn from_spec(color: Color) -> (u8, u8, u8) {
        (color.r, color.g, color.b)
    }
}

impl From<u32> for Color {
    fn from(rgb: u32) -> (c: Self) {
        Color::from_rgb24(rgb)
    }
}

impl vstd::std_specs::convert::FromSpecImpl<u32> for Color {
    open spec fn obeys_from_spec() -> bool {
        true
    }

    open spec fn from_spec(rgb: u32) -> Color {
        Color { r: ((rgb / 0x1_0000) % 256) as u8, g: ((rgb / 0x100) % 256) as u8, b: (rgb % 256) as u8 }
    }
}

} // verus!
