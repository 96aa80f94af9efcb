//! Sixteen-bit words as two bytes, most significant byte first.

use vstd::prelude::*;

verus! {

/// The word whose most significant byte is `high` and whose least
/// significant byte is `low`.
pub open spec fn word_of(high: u8, low: u8) -> u16 {
    (high as int * 256 + low as int) as u16
}

/// The most significant byte of `word`.
pub open spec fn high_byte(word: u16) -> u8 {
    (word as int / 256) as u8
}

/// The least significant byte of `word`.
pub open spec fn low_byte(word: u16) -> u8 {
    (word as int % 256) as u8
}

/// The word held in `bytes` at `index` and `index + 1`.
pub open spec fn word_at(bytes: Seq<u8>, index: int) -> u16
    recommends
        0 <= index,
        index + 1 < bytes.len(),
{
    word_of(bytes[index], bytes[index + 1])
}

/// `bytes` with `word` stored at `index` and `index + 1`.
pub open spec fn put_word(bytes: Seq<u8>, index: int, word: u16) -> Seq<u8>
    recommends
        0 <= index,
        index + 1 < bytes.len(),
{
    bytes.update(index, high_byte(word)).update(index + 1, low_byte(word))
}

/// Whether an access of `width` bytes at `index` lies within `len` bytes.
pub open spec fn in_bounds(len: nat, index: int, width: int) -> bool {
    0 <= index && index + width <= len
}

/// At the end of `len` bytes: the last byte can be accessed, a word cannot
/// start at it, and nothing can be accessed past it.
pub proof fn lemma_bounds_at_the_end(len: nat)
    ensures
        len >= 1 ==> in_bounds(len, len - 1, 1),
        !in_bounds(len, len - 1, 2),
        !in_bounds(len, len as int, 1),
        !in_bounds(len, len as int, 2),
        len >= 2 ==> in_bounds(len, len - 2, 2),
{
}

/// Joins two bytes into a word.
pub fn word_from_bytes(high: u8, low: u8) -> (word: u16)
    ensures
        word == word_of(high, low),
{
    (high as u16) * 256 + (low as u16)
}

/// Splits a word into its most and least significant byte.
pub fn word_to_bytes(word: u16) -> (bytes: (u8, u8))
    ensures
        bytes.0 == high_byte(word),
        bytes.1 == low_byte(word),
{
    ((word / 256) as u8, (word % 256) as u8)
}

/// Splitting a word and joining the halves gives the word back.
pub proof fn lemma_split_then_join(word: u16)
    ensures
        word_of(high_byte(word), low_byte(word)) == word,
{
}

/// Joining two bytes and splitting the word gives the bytes back.
pub proof fn lemma_join_then_split(high: u8, low: u8)
    ensures
        high_byte(word_of(high, low)) == high,
        low_byte(word_of(high, low)) == low,
{
}

/// A byte stored at an index within the bytes is the byte found there
/// afterwards, and no other byte changes.
pub proof fn lemma_byte_round_trip(bytes: Seq<u8>, index: int, value: u8)
    requires
        in_bounds(bytes.len(), index, 1),
    ensures
        bytes.update(index, value)[index] == value,
        bytes.update(index, value).len() == bytes.len(),
        forall|other: int|
            0 <= other < bytes.len() && other != index ==> bytes.update(index, value)[other]
                == bytes[other],
{
}

/// A word stored at an index within the bytes is the word found there
/// afterwards; its most significant byte comes first; no byte beside the
/// two changes.
pub proof fn lemma_word_round_trip(bytes: Seq<u8>, index: int, word: u16)
    requires
        in_bounds(bytes.len(), index, 2),
    ensures
        word_at(put_word(bytes, index, word), index) == word,
        put_word(bytes, index, word)[index] == high_byte(word),
        put_word(bytes, index, word)[index + 1] == low_byte(word),
        put_word(bytes, index, word).len() == bytes.len(),
        forall|other: int|
            0 <= other < bytes.len() && other != index && other != index + 1 ==> put_word(
                bytes,
                index,
                word,
            )[other] == bytes[other],
{
    lemma_split_then_join(word);
}

/// A word stored at `index` leaves the word at any `other` index that does
/// not overlap it as it was.
pub proof fn lemma_word_elsewhere(bytes: Seq<u8>, index: int, word: u16, other: int)
    requires
        in_bounds(bytes.len(), index, 2),
        in_bounds(bytes.len(), other, 2),
        other + 1 < index || index + 1 < other,
    ensures
        word_at(put_word(bytes, index, word), other) == word_at(bytes, other),
{
}

} // verus!
