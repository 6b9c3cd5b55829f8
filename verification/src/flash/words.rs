//! A double word as the two words that program it.

use vstd::prelude::*;

verus! {

/// The word that goes to the lower address: the low 32 bits.
pub open spec fn low_word(double_word: u64) -> u32 {
    (double_word & 0xFFFF_FFFF) as u32
}

/// The word that goes to the higher address: the high 32 bits.
pub open spec fn high_word(double_word: u64) -> u32 {
    (double_word >> 32) as u32
}

/// The double word that reads back from two adjacent words.
pub open spec fn double_word(low: u32, high: u32) -> u64 {
    ((high as u64) << 32) | (low as u64)
}

/// Split a double word into the word written first and the word written second.
pub fn split_double_word(value: u64) -> (words: (u32, u32))
    ensures
        words.0 == low_word(value),
        words.1 == high_word(value),
{
    let low: u64 = value & 0xFFFF_FFFF;
    let high: u64 = value >> 32;
    assert(low <= 0xFFFF_FFFF) by (bit_vector)
        requires
            low == value & 0xFFFF_FFFF,
    ;
    assert(high <= 0xFFFF_FFFF) by (bit_vector)
        requires
            high == value >> 32,
    ;
    (low as u32, high as u32)
}

/// Join two adjacent words into the double word that they hold.
pub fn join_words(low: u32, high: u32) -> (value: u64)
    ensures
        value == double_word(low, high),
{
    ((high as u64) << 32) | (low as u64)
}

/// Splitting a double word and joining the halves gives the double word back.
pub proof fn lemma_split_then_join(value: u64)
    ensures
        double_word(low_word(value), high_word(value)) == value,
{
    let low: u64 = value & 0xFFFF_FFFF;
    let high: u64 = value >> 32;
    assert(low <= 0xFFFF_FFFF && high <= 0xFFFF_FFFF && ((high << 32) | low) == value)
        by (bit_vector)
        requires
            low == value & 0xFFFF_FFFF,
            high == value >> 32,
    ;
}

/// Joining two words and splitting the result gives the two words back.
pub proof fn lemma_join_then_split(low: u32, high: u32)
    ensures
        low_word(double_word(low, high)) == low,
        high_word(double_word(low, high)) == high,
{
    let wide_low: u64 = low as u64;
    let wide_high: u64 = high as u64;
    let joined: u64 = (wide_high << 32) | wide_low;
    assert(joined & 0xFFFF_FFFF == wide_low && joined >> 32 == wide_high) by (bit_vector)
        requires
            wide_low <= 0xFFFF_FFFF,
            wide_high <= 0xFFFF_FFFF,
            joined == (wide_high << 32) | wide_low,
    ;
}

} // verus!
