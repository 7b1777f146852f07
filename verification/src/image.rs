//! The program image: 1024 bytes that hold parameters, data, code and a
//! reserved region, and serve as the machine's only memory.
//!
//! Nothing separates the regions: an operand pair can name any word of the
//! image, a word of the code region included.
use crate::fault::Fault;
use crate::layout::{
    addressable, in_code, locate_slot, locate_word, slot_offset, word_index, word_offset,
    IMAGE_BYTES, WORD_BYTES,
};
use crate::word::{
    from_be_bytes, lemma_bytes_round_trip, lemma_word_round_trip, to_be_bytes, word_from_bytes,
    word_to_bytes,
};
use vstd::prelude::*;

verus! {

/// The four bytes of `image` that start at `offset`.
pub open spec fn bytes_at(image: Seq<u8>, offset: int) -> Seq<u8>
    recommends
        0 <= offset,
        offset + WORD_BYTES <= image.len(),
{
    image.subrange(offset, offset + WORD_BYTES)
}

/// `image` with the bytes from `offset` on replaced by `bytes`.
pub open spec fn overwritten(image: Seq<u8>, offset: int, bytes: Seq<u8>) -> Seq<u8>
    recommends
        0 <= offset,
        offset + bytes.len() <= image.len(),
{
    Seq::new(
        image.len(),
        |i: int|
            if offset <= i < offset + bytes.len() {
                bytes[i - offset]
            } else {
                image[i]
            },
    )
}

/// The word of `image` that the operand pair `(x, y)` names.
pub open spec fn word_at(image: Seq<u8>, x: u8, y: u8) -> u32
    recommends
        image.len() == IMAGE_BYTES,
        addressable(x, y),
{
    word_from_bytes(bytes_at(image, word_offset(x, y)))
}

/// `image` with `value` stored in the word that `(x, y)` names.
pub open spec fn with_word(image: Seq<u8>, x: u8, y: u8, value: u32) -> Seq<u8>
    recommends
        image.len() == IMAGE_BYTES,
        addressable(x, y),
{
    overwritten(image, word_offset(x, y), word_to_bytes(value))
}

/// A word that was stored is the word that is read back.
pub proof fn lemma_read_after_write(image: Seq<u8>, x: u8, y: u8, value: u32)
    requires
        image.len() == IMAGE_BYTES,
        addressable(x, y),
    ensures
        with_word(image, x, y, value).len() == IMAGE_BYTES,
        word_at(with_word(image, x, y, value), x, y) == value,
{
    let offset = word_offset(x, y);
    assert(bytes_at(with_word(image, x, y, value), offset) =~= word_to_bytes(value));
    lemma_word_round_trip(value);
}

/// Storing a word changes no word but the one that was named.
pub proof fn lemma_write_leaves_other_words(
    image: Seq<u8>,
    x: u8,
    y: u8,
    value: u32,
    other_x: u8,
    other_y: u8,
)
    requires
        image.len() == IMAGE_BYTES,
        addressable(x, y),
        addressable(other_x, other_y),
        word_index(other_x, other_y) != word_index(x, y),
    ensures
        word_at(with_word(image, x, y, value), other_x, other_y) == word_at(
            image,
            other_x,
            other_y,
        ),
{
    let other = word_offset(other_x, other_y);
    assert(bytes_at(with_word(image, x, y, value), other) =~= bytes_at(image, other));
}

/// Storing the word that a place already holds changes nothing.
pub proof fn lemma_write_of_read(image: Seq<u8>, x: u8, y: u8)
    requires
        image.len() == IMAGE_BYTES,
        addressable(x, y),
    ensures
        with_word(image, x, y, word_at(image, x, y)) == image,
{
    let offset = word_offset(x, y);
    lemma_bytes_round_trip(bytes_at(image, offset));
    assert(with_word(image, x, y, word_at(image, x, y)) =~= image);
}

/// The four bytes of `image` in the instruction slot that the program
/// counter names.
pub open spec fn slot_at(image: Seq<u8>, program_counter: u16) -> Seq<u8>
    recommends
        image.len() == IMAGE_BYTES,
        in_code(program_counter),
{
    bytes_at(image, slot_offset(program_counter))
}

/// A program image. The array type fixes its length.
#[derive(Clone, Copy, Debug, PartialEq, Eq)]
pub struct ProgramImage {
    pub bytes: [u8; IMAGE_BYTES],
}

impl View for ProgramImage {
    type V = Seq<u8>;

    open spec fn view(&self) -> Seq<u8> {
        self.bytes@
    }
}

impl ProgramImage {
    /// Makes an image of a buffer, which must hold exactly as many bytes as
    /// an image has. A shorter buffer is not padded and a longer one is not
    /// cut.
    pub fn from_bytes(bytes: &[u8]) -> (result: Result<ProgramImage, Fault>)
        ensures
            match result {
                Ok(image) => bytes@.len() == IMAGE_BYTES && image@ == bytes@,
                Err(fault) => bytes@.len() != IMAGE_BYTES && fault == (Fault::MalformedProgramImage {
                    length: bytes@.len() as usize,
                }),
            },
    {
        if bytes.len() != IMAGE_BYTES {
            return Err(Fault::MalformedProgramImage { length: bytes.len() });
        }
        let mut image = ProgramImage { bytes: [0u8; IMAGE_BYTES] };
        let mut i: usize = 0;
        while i < IMAGE_BYTES
            invariant
                i <= IMAGE_BYTES,
                bytes@.len() == IMAGE_BYTES,
                forall|j: int| 0 <= j < i ==> image@[j] == bytes@[j],
            decreases IMAGE_BYTES - i,
        {
            image.bytes[i] = bytes[i];
            i += 1;
        }
        assert(image@ =~= bytes@);
        Ok(image)
    }

    /// Reads the four bytes that start at `offset`.
    pub fn read(&self, offset: usize) -> (bytes: [u8; 4])
        requires
            offset + WORD_BYTES <= IMAGE_BYTES,
        ensures
            bytes@ == bytes_at(self@, offset as int),
    {
        let bytes = [
            self.bytes[offset],
            self.bytes[offset + 1],
            self.bytes[offset + 2],
            self.bytes[offset + 3],
        ];
        assert(bytes@ =~= bytes_at(self@, offset as int));
        bytes
    }

    /// Writes four bytes at `offset`, and changes no other byte.
    pub fn write(&mut self, offset: usize, bytes: [u8; 4])
        requires
            offset + WORD_BYTES <= IMAGE_BYTES,
        ensures
            final(self)@ == overwritten(old(self)@, offset as int, bytes@),
    {
        self.bytes[offset] = bytes[0];
        self.bytes[offset + 1] = bytes[1];
        self.bytes[offset + 2] = bytes[2];
        self.bytes[offset + 3] = bytes[3];
        assert(self@ =~= overwritten(old(self)@, offset as int, bytes@));
    }

    /// The bytes in the instruction slot that the program counter names, or
    /// `None` where the counter points past the code region.
    pub fn instruction_at(&self, program_counter: u16) -> (bytes: Option<[u8; 4]>)
        ensures
            match bytes {
                Some(b) => in_code(program_counter) && b@ == slot_at(self@, program_counter),
                None => !in_code(program_counter),
            },
    {
        match locate_slot(program_counter) {
            Some(offset) => Some(self.read(offset)),
            None => None,
        }
    }

    /// The word that `(x, y)` names, or `None` where it lies outside the
    /// image.
    pub fn word_at(&self, x: u8, y: u8) -> (value: Option<u32>)
        ensures
            value == if addressable(x, y) {
                Some(word_at(self@, x, y))
            } else {
                None
            },
    {
        match locate_word(x, y) {
            Some(offset) => Some(from_be_bytes(self.read(offset))),
            None => None,
        }
    }

    /// Stores `value` in the word that `(x, y)` names and says `true`, or
    /// changes nothing and says `false` where that word lies outside the
    /// image.
    pub fn set_word(&mut self, x: u8, y: u8, value: u32) -> (stored: bool)
        ensures
            stored == addressable(x, y),
            final(self)@ == if addressable(x, y) {
                with_word(old(self)@, x, y, value)
            } else {
                old(self)@
            },
    {
        match locate_word(x, y) {
            Some(offset) => {
                self.write(offset, to_be_bytes(value));
                true
            },
            None => false,
        }
    }
}

} // verus!
