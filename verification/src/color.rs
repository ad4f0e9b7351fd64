//! Packing of 8-bit colour channels into a GDI `COLORREF` value.
use vstd::prelude::*;

verus! {

/// The `COLORREF` layout: red in bits 0..8, green in bits 8..16, blue in
/// bits 16..24, the top byte zero.
pub open spec fn colorref_value(r: u8, g: u8, b: u8) -> int {
    r as int + 256 * (g as int) + 65536 * (b as int)
}

/// Packs three channels into a `COLORREF`: `r | g << 8 | b << 16`.
pub fn rgb(r: u8, g: u8, b: u8) -> (c: u32)
    ensures
        c as int == colorref_value(r, g, b),
        c & 0xff == r as u32,
        (c >> 8u32) & 0xff == g as u32,
        (c >> 16u32) & 0xff == b as u32,
        c >> 24u32 == 0,
{
    let c: u32 = (r as u32) | ((g as u32) << 8u32) | ((b as u32) << 16u32);
    proof {
        let rr: u32 = r as u32;
        let gg: u32 = g as u32;
        let bb: u32 = b as u32;
        assert(rr | (gg << 8u32) | (bb << 16u32) == rr + 256 * gg + 65536 * bb) by (bit_vector)
            requires rr < 256, gg < 256, bb < 256;
        assert((rr | (gg << 8u32) | (bb << 16u32)) & 0xff == rr) by (bit_vector)
            requires rr < 256, gg < 256, bb < 256;
        assert(((rr | (gg << 8u32) | (bb << 16u32)) >> 8u32) & 0xff == gg) by (bit_vector)
            requires rr < 256, gg < 256, bb < 256;
        assert(((rr | (gg << 8u32) | (bb << 16u32)) >> 16u32) & 0xff == bb) by (bit_vector)
            requires rr < 256, gg < 256, bb < 256;
        assert((rr | (gg << 8u32) | (bb << 16u32)) >> 24u32 == 0) by (bit_vector)
            requires rr < 256, gg < 256, bb < 256;
    }
    c
}

/// Two channel triples pack to the same `COLORREF` only when they are equal.
pub proof fn lemma_rgb_injective(r1: u8, g1: u8, b1: u8, r2: u8, g2: u8, b2: u8)
    requires
        colorref_value(r1, g1, b1) == colorref_value(r2, g2, b2),
    ensures
        r1 == r2 && g1 == g2 && b1 == b2,
{
}

/// Blue channel of a spectrum bar or waveform segment: 150 at rest,
/// fading out as the red level grows, and zero from a level of 150 on.
pub fn fade_blue(level: u8) -> (b: u8)
    ensures
        b == (if level < 150 { 150 - level } else { 0 }),
{
    let capped: u8 = if level < 150 { level } else { 150 };
    150 - capped
}

} // verus!
