//! Splitting 16-bit words into bytes and joining them again.

use vstd::prelude::*;

verus! {

/// The word whose high byte is `upper` and whose low byte is `lower`.
pub open spec fn word(upper: u8, lower: u8) -> u16 {
    (upper * 256 + lower) as u16
}

/// The high byte of `v`.
pub open spec fn high_byte(v: u16) -> u8 {
    (v / 256) as u8
}

/// The low byte of `v`.
pub open spec fn low_byte(v: u16) -> u8 {
    (v % 256) as u8
}

/// The high byte of a word.
pub fn upper_only(v: u16) -> (r: u8)
    ensures
        r == high_byte(v),
{
    assert(v >> 8 == v / 256) by (bit_vector);
    (v >> 8) as u8
}

/// The low byte of a word.
pub fn lower_only(v: u16) -> (r: u8)
    ensures
        r == low_byte(v),
{
    assert(v & 0x00ff == v % 256) by (bit_vector);
    (v & 0x00ff) as u8
}

/// Joins a high and a low byte into a word.
pub fn u8u8_to_u16(upper: u8, lower: u8) -> (r: u16)
    ensures
        r == word(upper, lower),
{
    let upper = upper as u16;
    let lower = lower as u16;
    assert(upper << 8 == upper * 256) by (bit_vector)
        requires
            upper < 256,
    ;
    (upper << 8) + lower
}

/// Splits a word into its high and its low byte, in this order.
pub fn u16_to_u8u8(v: u16) -> (r: (u8, u8))
    ensures
        r.0 == high_byte(v),
        r.1 == low_byte(v),
{
    (upper_only(v), lower_only(v))
}

/// Splitting a word and joining the two bytes gives the word back.
pub proof fn lemma_split_then_join(v: u16)
    ensures
        word(high_byte(v), low_byte(v)) == v,
{
}

/// Joining two bytes and splitting the word gives the two bytes back.
pub proof fn lemma_join_then_split(upper: u8, lower: u8)
    ensures
        high_byte(word(upper, lower)) == upper,
        low_byte(word(upper, lower)) == lower,
{
}

} // verus!
