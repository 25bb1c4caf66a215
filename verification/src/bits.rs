//! Packing two bytes into a 16-bit word and back.

use vstd::prelude::*;

verus! {

/// The word whose high byte is `high` and whose low byte is `low`.
pub open spec fn pack(high: u8, low: u8) -> u16 {
    (high as int * 256 + low as int) as u16
}

/// The high byte of `word`.
pub open spec fn high_byte(word: u16) -> u8 {
    (word as int / 256) as u8
}

/// The low byte of `word`.
pub open spec fn low_byte(word: u16) -> u8 {
    (word as int % 256) as u8
}

/// Splits a word into its high and low byte, in that order.
pub fn unpack_u16(bytes: u16) -> (pair: (u8, u8))
    ensures
        pair.0 == high_byte(bytes),
        pair.1 == low_byte(bytes),
{
    assert(bytes >> 8 == bytes / 256) by (bit_vector);
    assert(bytes & 0xff == bytes % 256) by (bit_vector);
    ((bytes >> 8) as u8, (bytes & 0xff) as u8)
}

/// Joins a high and a low byte into a word.
pub fn pack_u16(high: u8, low: u8) -> (word: u16)
    ensures
        word == pack(high, low),
{
    let h: u16 = high as u16;
    let l: u16 = low as u16;
    assert((h << 8) | l == h * 256 + l) by (bit_vector)
        requires
            h < 256,
            l < 256,
    ;
    (h << 8) | l
}

/// Splitting a word and joining the halves gives the word back.
pub proof fn lemma_pack_unpack(word: u16)
    ensures
        pack(high_byte(word), low_byte(word)) == word,
{
}

/// Joining two bytes and splitting the word gives the bytes back.
pub proof fn lemma_unpack_pack(high: u8, low: u8)
    ensures
        high_byte(pack(high, low)) == high,
        low_byte(pack(high, low)) == low,
{
}

} // verus!
