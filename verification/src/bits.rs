//! Bytes and 16-bit words: how two bytes make a word and a word gives its
//! bytes back.

use vstd::prelude::*;

verus! {

/// The word with low byte `lo` and high byte `hi`.
pub open spec fn word_of(lo: u8, hi: u8) -> u16 {
    (lo as u16) | ((hi as u16) << 8)
}

/// The low byte of `word`.
pub open spec fn low_byte(word: u16) -> u8 {
    (word % 256) as u8
}

/// The high byte of `word`.
pub open spec fn high_byte(word: u16) -> u8 {
    (word / 256) as u8
}

/// The value of `byte` read as a two's complement number.
pub open spec fn signed_value(byte: u8) -> int {
    if byte < 128 {
        byte as int
    } else {
        byte - 256
    }
}

/// The address `offset` bytes after `address`, with `offset` read as a signed
/// displacement and the sum taken modulo 2^16.
pub open spec fn displaced(address: u16, offset: u8) -> u16 {
    ((address + signed_value(offset)) % 0x10000) as u16
}

pub fn make_word(lo: u8, hi: u8) -> (word: u16)
    ensures
        word == word_of(lo, hi),
        word == lo + 256 * hi,
{
    proof {
        lemma_word_value(lo, hi);
    }
    (lo as u16) | ((hi as u16) << 8)
}

pub fn low_byte_of(word: u16) -> (byte: u8)
    ensures
        byte == low_byte(word),
{
    (word % 256) as u8
}

pub fn high_byte_of(word: u16) -> (byte: u8)
    ensures
        byte == high_byte(word),
{
    (word / 256) as u8
}

/// `address` moved by the signed displacement `offset`, modulo 2^16.
pub fn displace(address: u16, offset: u8) -> (target: u16)
    ensures
        target == displaced(address, offset),
{
    let wide: i32 = if offset < 128 {
        address as i32 + offset as i32
    } else {
        address as i32 + offset as i32 - 256
    };
    if wide < 0 {
        (wide + 0x10000) as u16
    } else if wide >= 0x10000 {
        (wide - 0x10000) as u16
    } else {
        wide as u16
    }
}

/// A word is its low byte plus 256 times its high byte.
pub proof fn lemma_word_value(lo: u8, hi: u8)
    ensures
        word_of(lo, hi) == lo + 256 * hi,
{
    assert((lo as u16) | ((hi as u16) << 8) == (lo as u16) + 256 * (hi as u16)) by (bit_vector);
}

/// Taking a word apart and putting it together again gives the word, and the
/// other way round gives the bytes.
pub proof fn lemma_word_round_trip(word: u16, lo: u8, hi: u8)
    ensures
        word_of(low_byte(word), high_byte(word)) == word,
        low_byte(word_of(lo, hi)) == lo,
        high_byte(word_of(lo, hi)) == hi,
{
    lemma_word_value(lo, hi);
    lemma_word_value(low_byte(word), high_byte(word));
}

} // verus!
