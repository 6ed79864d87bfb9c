//! Colours.

use vstd::prelude::*;

verus! {

/// A colour in four channels of eight bits.
#[derive(Clone, Copy, PartialEq, Eq, Structural, Debug)]
pub struct Color {
    pub r: u8,
    pub g: u8,
    pub b: u8,
    pub a: u8,
}

/// The byte of `x` that starts at bit `shift`.
pub open spec fn byte_of(x: u32, shift: u32) -> u8 {
    ((x >> shift) & 0xff) as u8
}

/// The three channels packed into one number, red in the highest byte.
pub open spec fn packed(r: u8, g: u8, b: u8) -> u32 {
    ((r as u32) << 16) | ((g as u32) << 8) | (b as u32)
}

impl Color {
    /// An opaque colour of the three channels given.
    pub fn rgb(r: u8, g: u8, b: u8) -> (c: Color)
        ensures
            c == (Color { r, g, b, a: 255 }),
    {
        Color { r, g, b, a: 255 }
    }

    /// An opaque colour from its hexadecimal form `0xRRGGBB`. Bits above
    /// the three bytes are ignored.
    pub fn hex(x: u32) -> (c: Color)
        ensures
            c == (Color { r: byte_of(x, 16), g: byte_of(x, 8), b: byte_of(x, 0), a: 255 }),
            c.r == (x / 0x1_0000) % 0x100,
            c.g == (x / 0x100) % 0x100,
            c.b == x % 0x100,
    {
        let rr: u32 = (x >> 16) & 0xff;
        let gg: u32 = (x >> 8) & 0xff;
        let bb: u32 = (x >> 0) & 0xff;
        assert(rr < 256 && rr == (x / 0x1_0000) % 0x100) by (bit_vector)
            requires
                rr == (x >> 16) & 0xff,
        ;
        assert(gg < 256 && gg == (x / 0x100) % 0x100) by (bit_vector)
            requires
                gg == (x >> 8) & 0xff,
        ;
        assert(bb < 256 && bb == x % 0x100) by (bit_vector)
            requires
                bb == (x >> 0) & 0xff,
        ;
        Color { r: rr as u8, g: gg as u8, b: bb as u8, a: 255 }
    }
}

/// The hexadecimal form of three channels reads back as those channels.
pub proof fn lemma_hex_reads_back(r: u8, g: u8, b: u8)
    ensures
        byte_of(packed(r, g, b), 16) == r,
        byte_of(packed(r, g, b), 8) == g,
        byte_of(packed(r, g, b), 0) == b,
{
    let x = packed(r, g, b);
    assert(((x >> 16) & 0xff) == r as u32 && ((x >> 8) & 0xff) == g as u32 && ((x >> 0) & 0xff)
        == b as u32) by (bit_vector)
        requires
            x == ((r as u32) << 16) | ((g as u32) << 8) | (b as u32),
    ;
}

/// What a drawing surface offers. Nothing is asked of it yet.
pub trait Context {

}

} // verus!
