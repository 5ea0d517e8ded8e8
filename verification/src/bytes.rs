//! Bit access for the packed fields of the data dictionary.
use vstd::prelude::*;

verus! {


/// The eight bits of `byte`, most significant first.
pub fn extract_u8_bits_into_tup(byte: u8) -> (r: (u8, u8, u8, u8, u8, u8, u8, u8))
    ensures
        r.0 == (byte >> 7u8) & 1,
        r.1 == (byte >> 6u8) & 1,
        r.2 == (byte >> 5u8) & 1,
        r.3 == (byte >> 4u8) & 1,
        r.4 == (byte >> 3u8) & 1,
        r.5 == (byte >> 2u8) & 1,
        r.6 == (byte >> 1u8) & 1,
        r.7 == byte & 1,
{
    (
        byte >> 7 & 1,
        byte >> 6 & 1,
        byte >> 5 & 1,
        byte >> 4 & 1,
        byte >> 3 & 1,
        byte >> 2 & 1,
        byte >> 1 & 1,
        byte & 1,
    )
}

/// The sixteen bits of `word`, most significant first.
pub fn extract_u16_bits_into_tup(word: u16) -> (r: (
    u8,
    u8,
    u8,
    u8,
    u8,
    u8,
    u8,
    u8,
    u8,
    u8,
    u8,
    u8,
    u8,
    u8,
    u8,
    u8,
))
    ensures
        r.0 == (word >> 15u16) & 1,
        r.1 == (word >> 14u16) & 1,
        r.2 == (word >> 13u16) & 1,
        r.3 == (word >> 12u16) & 1,
        r.4 == (word >> 11u16) & 1,
        r.5 == (word >> 10u16) & 1,
        r.6 == (word >> 9u16) & 1,
        r.7 == (word >> 8u16) & 1,
        r.8 == (word >> 7u16) & 1,
        r.9 == (word >> 6u16) & 1,
        r.10 == (word >> 5u16) & 1,
        r.11 == (word >> 4u16) & 1,
        r.12 == (word >> 3u16) & 1,
        r.13 == (word >> 2u16) & 1,
        r.14 == (word >> 1u16) & 1,
        r.15 == word & 1,
{
    proof {
        assert((word >> 1u16) & 1 <= 1) by (bit_vector);
        assert((word >> 2u16) & 1 <= 1) by (bit_vector);
        assert((word >> 3u16) & 1 <= 1) by (bit_vector);
        assert((word >> 4u16) & 1 <= 1) by (bit_vector);
        assert((word >> 5u16) & 1 <= 1) by (bit_vector);
        assert((word >> 6u16) & 1 <= 1) by (bit_vector);
        assert((word >> 7u16) & 1 <= 1) by (bit_vector);
        assert((word >> 8u16) & 1 <= 1) by (bit_vector);
        assert((word >> 9u16) & 1 <= 1) by (bit_vector);
        assert((word >> 10u16) & 1 <= 1) by (bit_vector);
        assert((word >> 11u16) & 1 <= 1) by (bit_vector);
        assert((word >> 12u16) & 1 <= 1) by (bit_vector);
        assert((word >> 13u16) & 1 <= 1) by (bit_vector);
        assert((word >> 14u16) & 1 <= 1) by (bit_vector);
        assert((word >> 15u16) & 1 <= 1) by (bit_vector);
        assert(word & 1 <= 1) by (bit_vector);
    }
    (
        (word >> 15 & 1) as u8,
        (word >> 14 & 1) as u8,
        (word >> 13 & 1) as u8,
        (word >> 12 & 1) as u8,
        (word >> 11 & 1) as u8,
        (word >> 10 & 1) as u8,
        (word >> 9 & 1) as u8,
        (word >> 8 & 1) as u8,
        (word >> 7 & 1) as u8,
        (word >> 6 & 1) as u8,
        (word >> 5 & 1) as u8,
        (word >> 4 & 1) as u8,
        (word >> 3 & 1) as u8,
        (word >> 2 & 1) as u8,
        (word >> 1 & 1) as u8,
        (word & 1) as u8,
    )
}

/// The bits that `extract_u8_bits_into_tup` returns give back the byte, and each is 0 or 1.
pub proof fn lemma_u8_bits_reassemble(byte: u8, r: (u8, u8, u8, u8, u8, u8, u8, u8))
    requires
        r.0 == (byte >> 7u8) & 1,
        r.1 == (byte >> 6u8) & 1,
        r.2 == (byte >> 5u8) & 1,
        r.3 == (byte >> 4u8) & 1,
        r.4 == (byte >> 3u8) & 1,
        r.5 == (byte >> 2u8) & 1,
        r.6 == (byte >> 1u8) & 1,
        r.7 == byte & 1,
    ensures
        r.0 <= 1 && r.1 <= 1 && r.2 <= 1 && r.3 <= 1 && r.4 <= 1 && r.5 <= 1 && r.6 <= 1
            && r.7 <= 1,
        byte == r.0 * 128 + r.1 * 64 + r.2 * 32 + r.3 * 16 + r.4 * 8 + r.5 * 4 + r.6 * 2 + r.7,
{
    assert(((byte >> 7u8) & 1) * 128 + ((byte >> 6u8) & 1) * 64 + ((byte >> 5u8) & 1) * 32 + ((
    byte >> 4u8) & 1) * 16 + ((byte >> 3u8) & 1) * 8 + ((byte >> 2u8) & 1) * 4 + ((byte >> 1u8)
        & 1) * 2 + (byte & 1) == byte) by (bit_vector);
    assert(((byte >> 7u8) & 1) <= 1 && ((byte >> 6u8) & 1) <= 1 && ((byte >> 5u8) & 1) <= 1 && ((
    byte >> 4u8) & 1) <= 1 && ((byte >> 3u8) & 1) <= 1 && ((byte >> 2u8) & 1) <= 1 && ((byte
        >> 1u8) & 1) <= 1 && (byte & 1) <= 1) by (bit_vector);
}

} // verus!
