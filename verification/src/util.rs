//! Byte-level helpers for 16-bit words.
//!
//! The processor is little-endian on the bus but names register pairs high
//! byte first; everything that needs to move between the two goes through
//! the three functions here.
use vstd::prelude::*;

verus! {

/// The word made of `msb` as its high byte and `lsb` as its low byte.
pub open spec fn word_of(msb: u8, lsb: u8) -> int {
    msb as int * 256 + lsb as int
}

/// High byte of a word.
pub fn msb(two_bytes: u16) -> (r: u8)
    ensures
        r as int == two_bytes as int / 256,
{
    assert((two_bytes >> 8u16) == two_bytes / 256 && (two_bytes >> 8u16) < 256) by (bit_vector);
    (two_bytes >> 8u16) as u8
}

/// Low byte of a word.
pub fn lsb(two_bytes: u16) -> (r: u8)
    ensures
        r as int == two_bytes as int % 256,
{
    assert((two_bytes & 0xFF) == two_bytes % 256 && (two_bytes & 0xFF) < 256) by (bit_vector);
    (two_bytes & 0xFF) as u8
}

/// Joins a high and a low byte into a word.
pub fn unsigned_16(msb: u8, lsb: u8) -> (r: u16)
    ensures
        r as int == word_of(msb, lsb),
{
    let hi: u16 = msb as u16;
    let lo: u16 = lsb as u16;
    assert(((hi << 8u16) | lo) == hi * 256 + lo) by (bit_vector)
        requires
            hi < 256,
            lo < 256,
    ;
    (hi << 8u16) | lo
}

/// Splitting a word and joining the halves gives the word back.
pub proof fn lemma_split_then_join(w: u16)
    ensures
        word_of((w / 256) as u8, (w % 256) as u8) == w as int,
{
}

/// The halves of a joined word are the bytes it was joined from.
pub proof fn lemma_join_then_split(msb: u8, lsb: u8)
    ensures
        word_of(msb, lsb) / 256 == msb as int,
        word_of(msb, lsb) % 256 == lsb as int,
        0 <= word_of(msb, lsb) <= 0xFFFF,
{
}

} // verus!
