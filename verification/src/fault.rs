//! The ways in which building or stepping a machine can fail.
use crate::instruction::Instruction;
use vstd::prelude::*;

verus! {

/// Why no machine was built, or why a step did not take place.
///
/// A fault leaves the machine as it was before the step. Faults are
/// deterministic: the same step on the same machine gives the same fault.
/// Every fault of a step carries the program counter of that step.
#[derive(Clone, Copy, Debug, PartialEq, Eq)]
pub enum Fault {
    /// The buffer offered as a program image has the wrong length.
    MalformedProgramImage { length: usize },
    /// The program counter points past the last slot of the code region, so
    /// there is nothing to fetch. This is how a jump to such a slot ends, and
    /// how running off the end of the code does: at the step that would have
    /// read what lies behind the code.
    ProgramCounterOutOfBounds { program_counter: u16 },
    /// The bytes in the slot at the program counter spell no known mnemonic.
    UnrecognizedInstruction { bytes: [u8; 4], program_counter: u16 },
    /// The instruction is part of the instruction set, but what it does has
    /// not been defined.
    UnimplementedInstruction { instruction: Instruction, program_counter: u16 },
    /// The operands of the instruction name a word outside the image.
    AddressOutOfBounds { instruction: Instruction, program_counter: u16 },
    /// The word that a jump names as its target does not fit the sixteen
    /// bits of the program counter.
    ProgramCounterOverflow { target: u32, program_counter: u16 },
}

} // verus!
