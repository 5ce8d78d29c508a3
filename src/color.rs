//! The color of a single LED.
use vstd::prelude::*;

verus! {

/// An RGB color with 8 bits per channel.
#[derive(Copy, Clone, Debug, PartialEq, Eq, Structural)]
pub struct PixelColor {
    pub red: u8,
    pub green: u8,
    pub blue: u8,
}

impl PixelColor {
    /// Creates a color from its three channels.
    pub fn new(red: u8, green: u8, blue: u8) -> (r: PixelColor)
        ensures
            r == (PixelColor { red, green, blue }),
    {
        PixelColor { red, green, blue }
    }
}

impl PixelColor {
    /// Black: every channel off. This is the background of a blank frame.
    pub open spec fn black() -> PixelColor {
        PixelColor { red: 0, green: 0, blue: 0 }
    }
}

impl Default for PixelColor {
    /// The default color is black.
    fn default() -> (r: PixelColor)
        ensures
            r == PixelColor::black(),
    {
        PixelColor { red: 0, green: 0, blue: 0 }
    }
}

} // verus!
