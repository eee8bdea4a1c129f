//! Packed 5-5-5 RGB colours, as the host's drawing calls take them.

use vstd::prelude::*;

verus! {

/// The packed value of a colour: red in bits 10 and up, green in bits 5 to 9,
/// blue in bits 0 to 4. Components are not range-checked; bits that do not
/// fit are shifted out or overlap their neighbour, exactly as in the host.
pub open spec fn packed(r: u16, g: u16, b: u16) -> u16 {
    (r << 10) | (g << 5) | b
}

/// Packs three colour components into one 5-5-5 value.
pub fn irgb(r: u16, g: u16, b: u16) -> (color: u16)
    ensures
        color == packed(r, g, b),
{
    (r << 10) | (g << 5) | b
}

/// For components in range, that is below 32, the packed value is
/// `r * 1024 + g * 32 + b`, and each component can be read back from its bits.
pub proof fn lemma_packed_in_range(r: u16, g: u16, b: u16)
    requires
        r < 32,
        g < 32,
        b < 32,
    ensures
        packed(r, g, b) == r * 1024 + g * 32 + b,
        packed(r, g, b) >> 10 == r,
        (packed(r, g, b) >> 5) & 31 == g,
        packed(r, g, b) & 31 == b,
{
    assert(((r << 10) | (g << 5) | b) == r * 1024 + g * 32 + b) by (bit_vector)
        requires
            r < 32,
            g < 32,
            b < 32,
    ;
    assert(((r << 10) | (g << 5) | b) >> 10 == r) by (bit_vector)
        requires
            r < 32,
            g < 32,
            b < 32,
    ;
    assert((((r << 10) | (g << 5) | b) >> 5) & 31 == g) by (bit_vector)
        requires
            r < 32,
            g < 32,
            b < 32,
    ;
    assert(((r << 10) | (g << 5) | b) & 31 == b) by (bit_vector)
        requires
            r < 32,
            g < 32,
            b < 32,
    ;
}

/// Components out of range are not rejected. Of red only the low six bits
/// count, the rest is shifted out of the value; a green or blue bit above the
/// fifth lands on the neighbouring component.
pub proof fn lemma_packed_out_of_range(r: u16, g: u16, b: u16)
    ensures
        packed(r, g, b) == packed(r & 63, g, b),
        packed(0, 32, 0) == packed(1, 0, 0),
        packed(0, 0, 32) == packed(0, 1, 0),
{
    assert(((r << 10) | (g << 5) | b) == (((r & 63) << 10) | (g << 5) | b)) by (bit_vector);
    assert(((0u16 << 10) | (32u16 << 5) | 0u16) == ((1u16 << 10) | (0u16 << 5) | 0u16))
        by (bit_vector);
    assert(((0u16 << 10) | (0u16 << 5) | 32u16) == ((0u16 << 10) | (1u16 << 5) | 0u16))
        by (bit_vector);
}

} // verus!
