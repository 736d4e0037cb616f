use vstd::prelude::*;

verus! {

/// Any value masked by `m` is at most `m`.
pub broadcast proof fn lemma_and_mask_le(x: u32, m: u32)
    by (bit_vector)
    ensures
        #[trigger] (x & m) <= m,
{
}

} // verus!
