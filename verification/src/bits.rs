//! Facts about single bits of register values, shared by the drivers that
//! test them.
use vstd::prelude::*;

verus! {

/// Bit 0 of a 32-bit value is its parity.
pub proof fn lemma_low_bit(x: u32)
    ensures
        x & 1 == x % 2,
        (x & 1 != 0) == (x % 2 == 1),
{
    assert(x & 1 == x % 2) by (bit_vector);
}

/// Bit 7 of a byte is set exactly for the values from 0x80 up.
pub proof fn lemma_high_bit(x: u8)
    ensures
        (x & 0x80 != 0) == (x >= 0x80),
{
    assert((x & 0x80 != 0) == (x >= 0x80)) by (bit_vector);
}

} // verus!
