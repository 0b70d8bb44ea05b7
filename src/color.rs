use vstd::prelude::*;

verus! {

/// A color with four 8-bit channels, as stored in a vertex buffer.
#[derive(Clone, Copy, Debug, PartialEq, Eq, Structural)]
pub struct Rgba8 {
    pub r: u8,
    pub g: u8,
    pub b: u8,
    pub a: u8,
}

impl Rgba8 {
    pub fn new(r: u8, g: u8, b: u8, a: u8) -> (c: Rgba8)
        ensures
            c == (Rgba8 { r, g, b, a }),
    {
        Rgba8 { r, g, b, a }
    }

    /// All channels zero.
    pub fn transparent() -> (c: Rgba8)
        ensures
            c == (Rgba8 { r: 0, g: 0, b: 0, a: 0 }),
    {
        Rgba8 { r: 0, g: 0, b: 0, a: 0 }
    }

    pub fn white() -> (c: Rgba8)
        ensures
            c == (Rgba8 { r: 255, g: 255, b: 255, a: 255 }),
    {
        Rgba8 { r: 255, g: 255, b: 255, a: 255 }
    }

    pub fn black() -> (c: Rgba8)
        ensures
            c == (Rgba8 { r: 0, g: 0, b: 0, a: 255 }),
    {
        Rgba8 { r: 0, g: 0, b: 0, a: 255 }
    }

    pub fn red() -> (c: Rgba8)
        ensures
            c == (Rgba8 { r: 255, g: 0, b: 0, a: 255 }),
    {
        Rgba8 { r: 255, g: 0, b: 0, a: 255 }
    }

    pub fn green() -> (c: Rgba8)
        ensures
            c == (Rgba8 { r: 0, g: 255, b: 0, a: 255 }),
    {
        Rgba8 { r: 0, g: 255, b: 0, a: 255 }
    }

    pub fn blue() -> (c: Rgba8)
        ensures
            c == (Rgba8 { r: 0, g: 0, b: 255, a: 255 }),
    {
        Rgba8 { r: 0, g: 0, b: 255, a: 255 }
    }
}

} // verus!
