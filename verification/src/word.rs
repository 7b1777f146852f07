//! Words: unsigned 32-bit integers, stored as four bytes, most significant
//! byte first.
use vstd::prelude::*;

verus! {

/// The value of four bytes read as a big-endian word.
pub open spec fn word_from_bytes(bytes: Seq<u8>) -> u32
    recommends
        bytes.len() == 4,
{
    (bytes[0] * 0x100_0000 + bytes[1] * 0x1_0000 + bytes[2] * 0x100 + bytes[3]) as u32
}

/// The four bytes that store a word, most significant first.
pub open spec fn word_to_bytes(value: u32) -> Seq<u8> {
    seq![
        (value / 0x100_0000) as u8,
        (value / 0x1_0000 % 0x100) as u8,
        (value / 0x100 % 0x100) as u8,
        (value % 0x100) as u8,
    ]
}

/// The sum of two words, reduced modulo 2^32.
pub open spec fn wrapping_sum(a: u32, b: u32) -> u32 {
    ((a + b) % 0x1_0000_0000) as u32
}

/// The difference of two words, reduced modulo 2^32.
pub open spec fn wrapping_difference(a: u32, b: u32) -> u32 {
    ((a - b) % 0x1_0000_0000) as u32
}

/// Reading back the bytes of a word gives the word.
pub proof fn lemma_word_round_trip(value: u32)
    ensures
        word_to_bytes(value).len() == 4,
        word_from_bytes(word_to_bytes(value)) == value,
{
}

/// Storing the word that four bytes hold gives the same four bytes.
pub proof fn lemma_bytes_round_trip(bytes: Seq<u8>)
    requires
        bytes.len() == 4,
    ensures
        word_to_bytes(word_from_bytes(bytes)) == bytes,
{
    let value = word_from_bytes(bytes);
    assert(value / 0x100_0000 == bytes[0]);
    assert(value / 0x1_0000 == bytes[0] * 0x100 + bytes[1]);
    assert(value / 0x100 == bytes[0] * 0x1_0000 + bytes[1] * 0x100 + bytes[2]);
    assert(word_to_bytes(value) =~= bytes);
}

/// Reads four bytes as a big-endian word.
pub fn from_be_bytes(bytes: [u8; 4]) -> (value: u32)
    ensures
        value == word_from_bytes(bytes@),
{
    let b0: u32 = bytes[0] as u32;
    let b1: u32 = bytes[1] as u32;
    let b2: u32 = bytes[2] as u32;
    let b3: u32 = bytes[3] as u32;
    b0 * 0x100_0000 + b1 * 0x1_0000 + b2 * 0x100 + b3
}

/// Lays a word out as four bytes, most significant first.
pub fn to_be_bytes(value: u32) -> (bytes: [u8; 4])
    ensures
        bytes@ == word_to_bytes(value),
{
    [
        (value / 0x100_0000) as u8,
        (value / 0x1_0000 % 0x100) as u8,
        (value / 0x100 % 0x100) as u8,
        (value % 0x100) as u8,
    ]
}

} // verus!
