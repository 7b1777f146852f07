//! The instruction set and its four-byte encoding.
//!
//! An instruction is an ASCII mnemonic of two letters followed by two
//! operand bytes `(x, y)`, which name a word of the image. `HALT` alone
//! spells its mnemonic over all four bytes and has no operands.
use vstd::prelude::*;

verus! {

/// A decoded instruction.
#[derive(Clone, Copy, Debug, PartialEq, Eq)]
pub enum Instruction {
    /// `LR x y`: load the word at `(x, y)` into the accumulator.
    Load { x: u8, y: u8 },
    /// `SR x y`: store the accumulator into the word at `(x, y)`.
    Store { x: u8, y: u8 },
    /// `AD x y`: add the word at `(x, y)` to the accumulator, wrapping.
    Add { x: u8, y: u8 },
    /// `SU x y`: subtract the word at `(x, y)` from the accumulator, wrapping.
    Subtract { x: u8, y: u8 },
    /// `CR x y`: compare. Its effect is not defined yet.
    Compare { x: u8, y: u8 },
    /// `JP x y`: continue at the slot that the word at `(x, y)` names.
    Jump { x: u8, y: u8 },
    /// `JB x y`: jump if below. Its effect is not defined yet.
    JumpIfBelow { x: u8, y: u8 },
    /// `HALT`: stop. Its effect is not defined yet.
    Halt,
}

/// Whether the first two of the bytes spell the given mnemonic.
pub open spec fn tagged(bytes: Seq<u8>, first: u8, second: u8) -> bool {
    bytes[0] == first && bytes[1] == second
}

/// The instruction that four bytes encode, if any.
pub open spec fn decoded(bytes: Seq<u8>) -> Option<Instruction>
    recommends
        bytes.len() == 4,
{
    let x = bytes[2];
    let y = bytes[3];
    if tagged(bytes, 'L' as u8, 'R' as u8) {
        Some(Instruction::Load { x, y })
    } else if tagged(bytes, 'S' as u8, 'R' as u8) {
        Some(Instruction::Store { x, y })
    } else if tagged(bytes, 'A' as u8, 'D' as u8) {
        Some(Instruction::Add { x, y })
    } else if tagged(bytes, 'S' as u8, 'U' as u8) {
        Some(Instruction::Subtract { x, y })
    } else if tagged(bytes, 'C' as u8, 'R' as u8) {
        Some(Instruction::Compare { x, y })
    } else if tagged(bytes, 'J' as u8, 'P' as u8) {
        Some(Instruction::Jump { x, y })
    } else if tagged(bytes, 'J' as u8, 'B' as u8) {
        Some(Instruction::JumpIfBelow { x, y })
    } else if tagged(bytes, 'H' as u8, 'A' as u8) && x == 'L' as u8 && y == 'T' as u8 {
        Some(Instruction::Halt)
    } else {
        None
    }
}

impl Instruction {
    /// The four bytes that encode the instruction.
    pub open spec fn encoding(self) -> Seq<u8> {
        match self {
            Instruction::Load { x, y } => seq!['L' as u8, 'R' as u8, x, y],
            Instruction::Store { x, y } => seq!['S' as u8, 'R' as u8, x, y],
            Instruction::Add { x, y } => seq!['A' as u8, 'D' as u8, x, y],
            Instruction::Subtract { x, y } => seq!['S' as u8, 'U' as u8, x, y],
            Instruction::Compare { x, y } => seq!['C' as u8, 'R' as u8, x, y],
            Instruction::Jump { x, y } => seq!['J' as u8, 'P' as u8, x, y],
            Instruction::JumpIfBelow { x, y } => seq!['J' as u8, 'B' as u8, x, y],
            Instruction::Halt => seq!['H' as u8, 'A' as u8, 'L' as u8, 'T' as u8],
        }
    }

    /// Decodes the four bytes of an instruction slot. `None` means that the
    /// bytes spell no known mnemonic.
    pub fn decode(bytes: [u8; 4]) -> (instruction: Option<Instruction>)
        ensures
            instruction == decoded(bytes@),
    {
        let x: u8 = bytes[2];
        let y: u8 = bytes[3];
        let first: u8 = bytes[0];
        let second: u8 = bytes[1];
        if first == 'L' as u8 && second == 'R' as u8 {
            Some(Instruction::Load { x, y })
        } else if first == 'S' as u8 && second == 'R' as u8 {
            Some(Instruction::Store { x, y })
        } else if first == 'A' as u8 && second == 'D' as u8 {
            Some(Instruction::Add { x, y })
        } else if first == 'S' as u8 && second == 'U' as u8 {
            Some(Instruction::Subtract { x, y })
        } else if first == 'C' as u8 && second == 'R' as u8 {
            Some(Instruction::Compare { x, y })
        } else if first == 'J' as u8 && second == 'P' as u8 {
            Some(Instruction::Jump { x, y })
        } else if first == 'J' as u8 && second == 'B' as u8 {
            Some(Instruction::JumpIfBelow { x, y })
        } else if first == 'H' as u8 && second == 'A' as u8 && x == 'L' as u8 && y == 'T' as u8 {
            Some(Instruction::Halt)
        } else {
            None
        }
    }
}

/// Decoding inverts the encoding: four bytes decode to an instruction
/// exactly when they are that instruction's encoding.
pub proof fn lemma_decoded_iff_encoding(bytes: Seq<u8>, instruction: Instruction)
    requires
        bytes.len() == 4,
    ensures
        decoded(bytes) == Some(instruction) <==> bytes == instruction.encoding(),
{
    if decoded(bytes) == Some(instruction) {
        assert(bytes =~= instruction.encoding());
    }
}

} // verus!
