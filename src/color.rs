//! Packing of RGB colors into the 0x00RRGGBB framebuffer word.
use vstd::prelude::*;

verus! {

/// The framebuffer word of a color: red in bits 16..24, green in bits 8..16,
/// blue in bits 0..8, the top byte clear.
pub open spec fn packed_rgb(r: u8, g: u8, b: u8) -> int {
    r as int * 0x1_0000 + g as int * 0x100 + b as int
}

/// Packs one color into the word that a display surface blits directly.
pub fn rgb_to_u32(r: u8, g: u8, b: u8) -> (w: u32)
    ensures
        w == packed_rgb(r, g, b),
{
    let w = (r as u32) << 16 | (g as u32) << 8 | (b as u32);
    assert(((r as u32) << 16 | (g as u32) << 8 | (b as u32)) == r as u32 * 0x1_0000 + g as u32
        * 0x100 + b as u32) by (bit_vector);
    w
}

} // verus!
