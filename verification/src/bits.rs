//! Packing and unpacking of eight flags in one byte.

use vstd::prelude::*;

verus! {

/// Whether any bit of `mask` is set in `v`.
pub open spec fn is_set(v: u8, mask: u8) -> bool {
    v & mask != 0
}

/// The byte whose bit `i` is set exactly when `b<i>` holds.
pub open spec fn pack(
    b0: bool,
    b1: bool,
    b2: bool,
    b3: bool,
    b4: bool,
    b5: bool,
    b6: bool,
    b7: bool,
) -> u8 {
    (if b0 { 0x01u8 } else { 0u8 }) | (if b1 { 0x02u8 } else { 0u8 }) | (if b2 { 0x04u8 } else { 0u8 })
        | (if b3 { 0x08u8 } else { 0u8 }) | (if b4 { 0x10u8 } else { 0u8 }) | (if b5 { 0x20u8 } else { 0u8 })
        | (if b6 { 0x40u8 } else { 0u8 }) | (if b7 { 0x80u8 } else { 0u8 })
}

/// Tests `v` against `mask`.
pub fn test_bit(v: u8, mask: u8) -> (r: bool)
    ensures
        r == is_set(v, mask),
{
    v & mask != 0
}

/// Builds a byte from its eight bits, least significant first.
pub fn pack_bits(
    b0: bool,
    b1: bool,
    b2: bool,
    b3: bool,
    b4: bool,
    b5: bool,
    b6: bool,
    b7: bool,
) -> (r: u8)
    ensures
        r == pack(b0, b1, b2, b3, b4, b5, b6, b7),
{
    (if b0 { 0x01u8 } else { 0u8 }) | (if b1 { 0x02u8 } else { 0u8 }) | (if b2 { 0x04u8 } else { 0u8 })
        | (if b3 { 0x08u8 } else { 0u8 }) | (if b4 { 0x10u8 } else { 0u8 }) | (if b5 { 0x20u8 } else { 0u8 })
        | (if b6 { 0x40u8 } else { 0u8 }) | (if b7 { 0x80u8 } else { 0u8 })
}

/// Taking a byte apart bit by bit and packing the bits again gives the byte back.
pub proof fn lemma_pack_of_bits(v: u8)
    by (bit_vector)
    ensures
        pack(
            v & 0x01 != 0,
            v & 0x02 != 0,
            v & 0x04 != 0,
            v & 0x08 != 0,
            v & 0x10 != 0,
            v & 0x20 != 0,
            v & 0x40 != 0,
            v & 0x80 != 0,
        ) == v,
{
}

/// Each bit of a packed byte is the flag it was packed from.
pub proof fn lemma_bits_of_pack(
    b0: bool,
    b1: bool,
    b2: bool,
    b3: bool,
    b4: bool,
    b5: bool,
    b6: bool,
    b7: bool,
)
    by (bit_vector)
    ensures
        (pack(b0, b1, b2, b3, b4, b5, b6, b7) & 0x01 != 0) == b0,
        (pack(b0, b1, b2, b3, b4, b5, b6, b7) & 0x02 != 0) == b1,
        (pack(b0, b1, b2, b3, b4, b5, b6, b7) & 0x04 != 0) == b2,
        (pack(b0, b1, b2, b3, b4, b5, b6, b7) & 0x08 != 0) == b3,
        (pack(b0, b1, b2, b3, b4, b5, b6, b7) & 0x10 != 0) == b4,
        (pack(b0, b1, b2, b3, b4, b5, b6, b7) & 0x20 != 0) == b5,
        (pack(b0, b1, b2, b3, b4, b5, b6, b7) & 0x40 != 0) == b6,
        (pack(b0, b1, b2, b3, b4, b5, b6, b7) & 0x80 != 0) == b7,
{
}

} // verus!
