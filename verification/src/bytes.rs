//! Bytes and little-endian words.
use vstd::prelude::*;

verus! {

/// The value of `n` reduced into one byte.
pub open spec fn wrap8(n: int) -> u8 {
    (n % 0x100) as u8
}

/// The value of `n` reduced into one 16-bit word.
pub open spec fn wrap16(n: int) -> u16 {
    (n % 0x1_0000) as u16
}

/// The word whose low byte is `lo` and whose high byte is `hi`.
pub open spec fn word(lo: u8, hi: u8) -> u16 {
    (hi * 0x100 + lo) as u16
}

/// The low byte of `w`.
pub open spec fn low_byte(w: u16) -> u8 {
    (w % 0x100) as u8
}

/// The high byte of `w`.
pub open spec fn high_byte(w: u16) -> u8 {
    (w / 0x100) as u8
}

/// A byte read as a two's-complement number, in `-128 ..= 127`.
pub open spec fn signed(b: u8) -> int {
    if b < 0x80 {
        b as int
    } else {
        b - 0x100
    }
}

/// Splitting a word and joining the halves gives the word back, and the
/// other way round.
pub proof fn lemma_word_bytes(lo: u8, hi: u8, w: u16)
    ensures
        low_byte(word(lo, hi)) == lo,
        high_byte(word(lo, hi)) == hi,
        word(low_byte(w), high_byte(w)) == w,
{
}

/// Joins two bytes into a little-endian word.
pub fn make_word(lo: u8, hi: u8) -> (w: u16)
    ensures
        w == word(lo, hi),
{
    assert((hi as u16) << 8 | (lo as u16) == (hi as u16) * 0x100 + (lo as u16)) by (bit_vector);
    (hi as u16) << 8 | (lo as u16)
}

/// The low byte of a word.
pub fn word_low(w: u16) -> (b: u8)
    ensures
        b == low_byte(w),
{
    assert(w & 0xFF == w % 0x100) by (bit_vector);
    (w & 0xFF) as u8
}

/// The high byte of a word.
pub fn word_high(w: u16) -> (b: u8)
    ensures
        b == high_byte(w),
{
    assert(w >> 8 == w / 0x100) by (bit_vector);
    (w >> 8) as u8
}

/// A byte as a word, which is its address in page zero.
pub fn widen(b: u8) -> (w: u16)
    ensures
        w == b,
{
    b as u16
}

} // verus!
