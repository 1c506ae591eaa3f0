//! 16-bit words and their two bytes.

use vstd::prelude::*;

verus! {

/// The high byte of a word.
pub open spec fn high(word: u16) -> u8 {
    (word / 256) as u8
}

/// The low byte of a word.
pub open spec fn low(word: u16) -> u8 {
    (word % 256) as u8
}

/// The word with the given high and low bytes.
pub open spec fn join(high: u8, low: u8) -> u16 {
    (high * 256 + low) as u16
}

/// A word is its two bytes joined, and joined bytes come apart again.
pub proof fn lemma_join_split(word: u16, high_byte: u8, low_byte: u8)
    ensures
        join(high(word), low(word)) == word,
        high(join(high_byte, low_byte)) == high_byte,
        low(join(high_byte, low_byte)) == low_byte,
{
}

/// What the shift and the mask that take a word apart compute.
proof fn lemma_split(word: u16)
    by (bit_vector)
    ensures
        word >> 8 == word / 256,
        word & 0x00FF == word % 256,
{
}

/// What replacing one byte of a word by masking and or-ing computes.
proof fn lemma_join(word: u16, byte: u16)
    by (bit_vector)
    requires
        byte < 256,
    ensures
        (word & 0x00FF) | (byte << 8) == byte * 256 + word % 256,
        (word & 0xFF00) | byte == (word / 256) * 256 + byte,
{
}

/// The high byte of `word`.
pub fn high_byte(word: u16) -> (byte: u8)
    ensures
        byte == high(word),
{
    proof {
        lemma_split(word);
    }
    (word >> 8) as u8
}

/// The low byte of `word`.
pub fn low_byte(word: u16) -> (byte: u8)
    ensures
        byte == low(word),
{
    proof {
        lemma_split(word);
    }
    (word & 0x00FF) as u8
}

/// `word` with its high byte replaced by `byte`.
pub fn with_high(word: u16, byte: u8) -> (out: u16)
    ensures
        out == join(byte, low(word)),
{
    proof {
        lemma_join(word, byte as u16);
    }
    (word & 0x00FF) | ((byte as u16) << 8)
}

/// `word` with its low byte replaced by `byte`.
pub fn with_low(word: u16, byte: u8) -> (out: u16)
    ensures
        out == join(high(word), byte),
{
    proof {
        lemma_join(word, byte as u16);
    }
    (word & 0xFF00) | (byte as u16)
}

/// The word with the given high and low bytes.
pub fn join_bytes(high: u8, low: u8) -> (word: u16)
    ensures
        word == join(high, low),
{
    with_high(low as u16, high)
}

} // verus!
