use vstd::prelude::*;

verus! {

/// A colour as three 8-bit channels.
#[derive(Clone, Copy, Debug, PartialEq, Eq, Structural)]
pub struct Rgb {
    pub r: u8,
    pub g: u8,
    pub b: u8,
}

impl Rgb {
    pub fn new(r: u8, g: u8, b: u8) -> (c: Rgb)
        ensures
            c.r == r,
            c.g == g,
            c.b == b,
    {
        Rgb { r, g, b }
    }
}

/// Colour of an untouched cell.
pub open spec fn spec_black() -> Rgb {
    Rgb { r: 0, g: 0, b: 0 }
}

/// Default colour of a glyph.
pub open spec fn spec_white() -> Rgb {
    Rgb { r: 255, g: 255, b: 255 }
}

/// Background of a tile that blocks sight.
pub open spec fn spec_dark_wall() -> Rgb {
    Rgb { r: 0, g: 0, b: 100 }
}

/// Background of a tile that does not block sight.
pub open spec fn spec_dark_ground() -> Rgb {
    Rgb { r: 50, g: 50, b: 150 }
}

pub fn black() -> (c: Rgb)
    ensures
        c == spec_black(),
{
    Rgb { r: 0, g: 0, b: 0 }
}

pub fn white() -> (c: Rgb)
    ensures
        c == spec_white(),
{
    Rgb { r: 255, g: 255, b: 255 }
}

pub fn dark_wall() -> (c: Rgb)
    ensures
        c == spec_dark_wall(),
{
    Rgb { r: 0, g: 0, b: 100 }
}

pub fn dark_ground() -> (c: Rgb)
    ensures
        c == spec_dark_ground(),
{
    Rgb { r: 50, g: 50, b: 150 }
}

} // verus!
