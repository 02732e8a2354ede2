use vstd::prelude::*;

verus! {

/// A color with red, green, blue and alpha channels of one byte each.
#[derive(Clone, Copy, Debug, PartialEq, Eq, Structural)]
pub struct RGBA(pub u8, pub u8, pub u8, pub u8);

/// The 32-bit word that a color is packed into: red in the highest byte, alpha in the lowest.
pub open spec fn packed(c: RGBA) -> u32 {
    (c.0 as int * 0x100_0000 + c.1 as int * 0x1_0000 + c.2 as int * 0x100 + c.3 as int) as u32
}

/// Packs a color as `(R << 24) | (G << 16) | (B << 8) | A`.
pub fn pack_rgba(rgba: &RGBA) -> (r: u32)
    ensures
        r == ((rgba.0 as u32) << 24u32) | ((rgba.1 as u32) << 16u32) | ((rgba.2 as u32) << 8u32) | (rgba.3 as u32),
        r == packed(*rgba),
        r == rgba.0 as int * 0x100_0000 + rgba.1 as int * 0x1_0000 + rgba.2 as int * 0x100 + rgba.3 as int,
{
    let r = ((rgba.0 as u32) << 24u32) | ((rgba.1 as u32) << 16u32) | ((rgba.2 as u32) << 8u32) | (rgba.3 as u32);
    let (a, b, c, d) = (rgba.0, rgba.1, rgba.2, rgba.3);
    assert(((a as u32) << 24u32) | ((b as u32) << 16u32) | ((c as u32) << 8u32) | (d as u32)
        == a as u32 * 0x100_0000u32 + b as u32 * 0x1_0000u32 + c as u32 * 0x100u32 + d as u32) by (bit_vector);
    r
}

} // verus!
