//! The fixed layout of a program image, and the address arithmetic on it.
use vstd::prelude::*;

verus! {

/// Bytes in a word, which is also the width of an instruction.
pub const WORD_BYTES: usize = 4;

/// Words in a block.
pub const BLOCK_WORDS: usize = 16;

/// Bytes in a block.
pub const BLOCK_BYTES: usize = BLOCK_WORDS * WORD_BYTES;

/// Blocks of program-supplied constants, at the start of the image.
pub const PARAMETER_BLOCKS: usize = 1;

/// Blocks of working storage, after the parameters.
pub const DATA_BLOCKS: usize = 7;

/// Blocks of instructions, after the data.
pub const CODE_BLOCKS: usize = 6;

/// Blocks at the end of the image that no instruction has a use for.
pub const RESERVED_BLOCKS: usize = 2;

/// Bytes in a program image.
pub const IMAGE_BYTES: usize = (PARAMETER_BLOCKS + DATA_BLOCKS + CODE_BLOCKS + RESERVED_BLOCKS)
    * BLOCK_BYTES;

/// Words in a program image.
pub const IMAGE_WORDS: usize = IMAGE_BYTES / WORD_BYTES;

/// Byte offset of the first instruction.
pub const CODE_BASE: usize = (PARAMETER_BLOCKS + DATA_BLOCKS) * BLOCK_BYTES;

/// Instruction slots in the code region.
pub const CODE_SLOTS: usize = CODE_BLOCKS * BLOCK_WORDS;

/// The four regions follow one another and fill the image: parameters in
/// bytes 0 to 63, data in 64 to 511, code in 512 to 895, and the reserved
/// region in 896 to 1023.
pub proof fn lemma_regions_fill_the_image()
    ensures
        PARAMETER_BLOCKS * BLOCK_BYTES == 64,
        (PARAMETER_BLOCKS + DATA_BLOCKS) * BLOCK_BYTES == CODE_BASE == 512,
        CODE_BASE + CODE_BLOCKS * BLOCK_BYTES == CODE_BASE + CODE_SLOTS * WORD_BYTES == 896,
        CODE_BASE + (CODE_BLOCKS + RESERVED_BLOCKS) * BLOCK_BYTES == IMAGE_BYTES == 1024,
        IMAGE_WORDS * WORD_BYTES == IMAGE_BYTES,
        CODE_SLOTS == 96,
{
}

/// The word that the operand pair `(x, y)` names, counted from the start of
/// the image: block `x`, word `y`. No region's offset is added.
pub open spec fn word_index(x: u8, y: u8) -> int {
    x * BLOCK_WORDS + y
}

/// Whether the word that `(x, y)` names lies inside the image.
pub open spec fn addressable(x: u8, y: u8) -> bool {
    word_index(x, y) < IMAGE_WORDS
}

/// Byte offset of the word that `(x, y)` names.
pub open spec fn word_offset(x: u8, y: u8) -> int {
    word_index(x, y) * WORD_BYTES
}

/// Whether the program counter names a slot of the code region.
pub open spec fn in_code(program_counter: u16) -> bool {
    program_counter < CODE_SLOTS
}

/// Byte offset of the instruction slot that the program counter names.
pub open spec fn slot_offset(program_counter: u16) -> int {
    CODE_BASE + program_counter * WORD_BYTES
}

/// Byte offset of the word that `(x, y)` names, or `None` where that word
/// lies outside the image.
pub fn locate_word(x: u8, y: u8) -> (offset: Option<usize>)
    ensures
        match offset {
            Some(o) => addressable(x, y) && o == word_offset(x, y) && o + WORD_BYTES <= IMAGE_BYTES,
            None => !addressable(x, y),
        },
{
    let index: usize = x as usize * BLOCK_WORDS + y as usize;
    if index < IMAGE_WORDS {
        Some(index * WORD_BYTES)
    } else {
        None
    }
}

/// Byte offset of the instruction slot that the program counter names, or
/// `None` where the counter points past the code region.
pub fn locate_slot(program_counter: u16) -> (offset: Option<usize>)
    ensures
        match offset {
            Some(o) => in_code(program_counter) && o == slot_offset(program_counter) && o
                + WORD_BYTES <= IMAGE_BYTES,
            None => !in_code(program_counter),
        },
{
    let slot: usize = program_counter as usize;
    if slot < CODE_SLOTS {
        Some(CODE_BASE + slot * WORD_BYTES)
    } else {
        None
    }
}

} // verus!
