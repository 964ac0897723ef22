//! # Flag Bits.
//!
//! Helpers for reasoning about the bit flags stored in `u8` (encoder) and
//! `u16` (program settings) values.

use vstd::prelude::*;

verus! {

/// # A flag is set (every one of its bits is on).
pub open spec fn has8(flags: u8, flag: u8) -> bool {
    flags & flag == flag
}

/// # Setting a flag turns it on.
pub proof fn lemma_or_sets(f: u8, b: u8)
    by (bit_vector)
    ensures (f | b) & b == b,
{}

/// # Setting a flag leaves disjoint flags alone.
pub proof fn lemma_or_keeps(f: u8, b: u8, c: u8)
    by (bit_vector)
    requires b & c == 0,
    ensures (f | b) & c == f & c,
{}

/// # Clearing a flag turns it off.
pub proof fn lemma_andnot_clears(f: u8, b: u8)
    by (bit_vector)
    ensures (f & !b) & b == 0,
{}

/// # Clearing a flag leaves disjoint flags alone.
pub proof fn lemma_andnot_keeps(f: u8, b: u8, c: u8)
    by (bit_vector)
    requires b & c == 0,
    ensures (f & !b) & c == f & c,
{}

/// # Masking keeps exactly the masked flags.
pub proof fn lemma_and_mask(f: u8, m: u8, c: u8)
    by (bit_vector)
    requires c & m == c,
    ensures (f & m) & c == f & c,
{}

/// # Masking drops flags outside the mask.
pub proof fn lemma_and_mask_drops(f: u8, m: u8, c: u8)
    by (bit_vector)
    requires c & m == 0,
    ensures (f & m) & c == 0,
{}

/// # A single-bit flag is either fully on or fully off.
pub proof fn lemma_single_bit(f: u8, b: u8)
    by (bit_vector)
    requires b == 1 || b == 2 || b == 4 || b == 8 || b == 16 || b == 32 || b == 64 || b == 128,
    ensures f & b == b || f & b == 0,
{}

/// # The encoder flags are distinct single bits.
pub proof fn lemma_encoder_flags()
    by (bit_vector)
    ensures
        0x40u8 & 0x20u8 == 0, 0x40u8 & 0x02u8 == 0, 0x40u8 & 0x01u8 == 0,
        0x10u8 & 0x20u8 == 0, 0x10u8 & 0x04u8 == 0, 0x10u8 & 0x08u8 == 0,
        0x10u8 & 0x01u8 == 0, 0x10u8 & 0x02u8 == 0, 0x10u8 & 0x40u8 == 0,
        0x08u8 & 0x20u8 == 0, 0x08u8 & 0x04u8 == 0, 0x08u8 & 0x01u8 == 0,
        0x08u8 & 0x02u8 == 0, 0x08u8 & 0x40u8 == 0, 0x08u8 & 0x10u8 == 0,
        0x04u8 & 0x20u8 == 0,
        0x20u8 & 0x07u8 == 0, 0x20u8 & 0x20u8 == 0x20u8, 0u8 & 0x20u8 == 0,
        0x04u8 & 0x10u8 == 0, 0x04u8 & 0x08u8 == 0, 0x40u8 & 0x10u8 == 0,
        0x40u8 & 0x08u8 == 0, 0x40u8 & 0x04u8 == 0, 0x10u8 & 0x07u8 == 0,
{}

} // verus!
