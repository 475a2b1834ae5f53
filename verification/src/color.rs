//! Colours as 8-bit sRGB channels, and the palette of the screen-relative game.
use vstd::prelude::*;

verus! {

/// A colour: red, green, blue and opacity, each an 8-bit sRGB channel.
#[derive(Clone, Copy, Debug, PartialEq, Eq, Structural)]
pub struct Color {
    pub r: u8,
    pub g: u8,
    pub b: u8,
    pub a: u8,
}

/// The opaque colour with the given channels.
pub fn srgb(r: u8, g: u8, b: u8) -> (color: Color)
    ensures
        color == (Color { r, g, b, a: 255 }),
{
    Color { r, g, b, a: 255 }
}

/// The seven colours the screen-relative game draws with.
#[derive(Clone, Copy, Debug, PartialEq, Eq, Structural)]
pub struct Palette {
    pub background: Color,
    pub pipe: Color,
    pub pipe_dark: Color,
    pub ground: Color,
    pub ground_edge: Color,
    pub bird_body: Color,
    pub bird_beak: Color,
}

impl Palette {
    /// The palette a game starts with unless told otherwise.
    pub open spec fn standard() -> Palette {
        Palette {
            background: Color { r: 0x87, g: 0xce, b: 0xeb, a: 255 },
            pipe: Color { r: 0x2e, g: 0xc4, b: 0x41, a: 255 },
            pipe_dark: Color { r: 0x1c, g: 0x8a, b: 0x2b, a: 255 },
            ground: Color { r: 0x4b, g: 0x26, b: 0x0b, a: 255 },
            ground_edge: Color { r: 0x75, g: 0x40, b: 0x19, a: 255 },
            bird_body: Color { r: 0xe6, g: 0x22, b: 0x2f, a: 255 },
            bird_beak: Color { r: 0xff, g: 0xd0, b: 0x2a, a: 255 },
        }
    }
}

impl Default for Palette {
    fn default() -> (palette: Palette)
        ensures
            palette == Palette::standard(),
    {
        Palette {
            background: srgb(0x87, 0xce, 0xeb),
            pipe: srgb(0x2e, 0xc4, 0x41),
            pipe_dark: srgb(0x1c, 0x8a, 0x2b),
            ground: srgb(0x4b, 0x26, 0x0b),
            ground_edge: srgb(0x75, 0x40, 0x19),
            bird_body: srgb(0xe6, 0x22, 0x2f),
            bird_beak: srgb(0xff, 0xd0, 0x2a),
        }
    }
}

} // verus!
