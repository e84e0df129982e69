//! Facts about masking that the rest of the crate relies on.
use vstd::prelude::*;

verus! {

/// A mask never yields more than the mask or the value masked.
pub broadcast proof fn lemma_u8_and_le(x: u8, m: u8)
    ensures
        #[trigger] (x & m) <= m,
        x & m <= x,
{
    assert(x & m <= m && x & m <= x) by (bit_vector);
}

/// A mask never yields more than the mask or the value masked.
pub broadcast proof fn lemma_u16_and_le(x: u16, m: u16)
    ensures
        #[trigger] (x & m) <= m,
        x & m <= x,
{
    assert(x & m <= m && x & m <= x) by (bit_vector);
}

/// A mask never yields more than the mask or the value masked.
pub broadcast proof fn lemma_u32_and_le(x: u32, m: u32)
    ensures
        #[trigger] (x & m) <= m,
        x & m <= x,
{
    assert(x & m <= m && x & m <= x) by (bit_vector);
}

/// A mask never yields more than the mask or the value masked.
pub broadcast proof fn lemma_u64_and_le(x: u64, m: u64)
    ensures
        #[trigger] (x & m) <= m,
        x & m <= x,
{
    assert(x & m <= m && x & m <= x) by (bit_vector);
}

pub broadcast group group_masks {
    lemma_u8_and_le,
    lemma_u16_and_le,
    lemma_u32_and_le,
    lemma_u64_and_le,
}

} // verus!
