//! Facts about single-byte bit fields shared by the register types.

use vstd::prelude::*;

verus! {

/// `true` when every bit of `mask` is set in `value`.
pub open spec fn has_bits(value: u8, mask: u8) -> bool {
    value & mask == mask
}

/// Setting the bits of `mask` leaves them set.
pub proof fn lemma_set_has_bits(value: u8, mask: u8)
    by (bit_vector)
    ensures
        (value | mask) & mask == mask,
{
}

/// Setting the bits of `mask` leaves the bits outside of it as they were.
pub proof fn lemma_set_keeps_others(value: u8, mask: u8, other: u8)
    by (bit_vector)
    ensures
        mask & other == 0 ==> (value | mask) & other == value & other,
{
}

/// The three low bits of a byte are pairwise disjoint.
pub proof fn lemma_single_bits_disjoint()
    by (bit_vector)
    ensures
        0x01u8 & 0x02 == 0,
        0x01u8 & 0x04 == 0,
        0x02u8 & 0x04 == 0,
        0x02u8 & 0x01 == 0,
        0x04u8 & 0x01 == 0,
        0x04u8 & 0x02 == 0,
{
}

} // verus!
