//! Bit-level spec functions shared by the decoding scheme, the word packer
//! and the pixel decoder. Bit 0 is always the least significant bit of the
//! value; the viewer's "MSB-first" orderings are expressed by the callers.

use vstd::prelude::*;

verus! {

/// Bit `j` (least significant bit = 0) of an 8-bit value.
pub open spec fn u8_bit(v: u8, j: u32) -> bool
    recommends
        j < 8,
{
    (v >> j) & 1u8 == 1u8
}

/// Bit `j` (least significant bit = 0) of a 32-bit value.
pub open spec fn u32_bit(v: u32, j: u32) -> bool
    recommends
        j < 32,
{
    (v >> j) & 1u32 == 1u32
}

/// Bit `k` (least significant bit = 0) of a 64-bit value.
pub open spec fn u64_bit(v: u64, k: u32) -> bool
    recommends
        k < 64,
{
    (v >> k) & 1u64 == 1u64
}

} // verus!
