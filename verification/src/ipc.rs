//! Helpers for talking to the session manager.

use vstd::prelude::*;

verus! {

/// Given device ID return it major and minor number.
pub fn major_minor(rdev: u64) -> (result: (u32, u32))
    ensures
        result.0 == (rdev / 256) as u32,
        result.1 == rdev % 256,
{
    assert((1u64 << 8) == 256) by (bit_vector);
    let major = (rdev >> 8) as u32;
    let minor = (rdev & ((1u64 << 8) - 1)) as u32;
    assert(rdev >> 8 == rdev / 256) by (bit_vector);
    assert(rdev & 255 == rdev % 256) by (bit_vector);
    (major, minor)
}

/// Major and minor number together give back the device ID, for IDs whose major number fits in
/// 32 bits.
pub proof fn lemma_major_minor_recombine(rdev: u64)
    requires
        rdev / 256 <= u32::MAX,
    ensures
        ((rdev / 256) as u32) * 256 + rdev % 256 == rdev,
{
}

} // verus!
