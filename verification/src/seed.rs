//! Seeds for the TLS and network stacks, assembled from two 32-bit draws of
//! the hardware random number generator.

use vstd::prelude::*;

verus! {

/// The 64-bit seed whose low half is `low` and whose high half is `high`.
pub fn combine_seed(low: u32, high: u32) -> (seed: u64)
    ensures
        seed == low + high * 0x1_0000_0000,
{
    let seed = low as u64 | ((high as u64) << 32u64);
    assert(low as u64 | ((high as u64) << 32u64) == low + high * 0x1_0000_0000) by (bit_vector);
    seed
}

} // verus!
