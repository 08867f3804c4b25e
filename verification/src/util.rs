//! Facts about the bit fields of a byte.

use vstd::prelude::*;

verus! {

/// The masks and shifts that the decoders use, stated as division and
/// remainder.
pub proof fn lemma_byte_fields(b: u8)
    by (bit_vector)
    ensures
        b & 0x0f == b % 16,
        b >> 4 == b / 16,
        b & 0x7f == b % 128,
        (b & 0x80 != 0) <==> b >= 128,
        (b & 0xc0) >> 6 == b / 64,
        (b & 0x20) >> 5 == (b / 32) % 2,
        (b & 0x18) >> 3 == (b / 8) % 4,
        b & 0x07 == b % 8,
        (b & 0x30) >> 4 == (b / 16) % 4,
{
}

} // verus!
