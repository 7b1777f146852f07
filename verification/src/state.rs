//! What a step does, stated over the machine's abstract state.
use crate::fault::Fault;
use crate::image::{lemma_read_after_write, slot_at, with_word, word_at};
use crate::instruction::{decoded, Instruction};
use crate::layout::{addressable, in_code, IMAGE_BYTES};
use crate::word::{wrapping_difference, wrapping_sum};
use vstd::prelude::*;

verus! {

/// The state of a machine: its image and its registers.
pub struct MachineState {
    /// The bytes of the program image.
    pub image: Seq<u8>,
    /// The slot of the code region that holds the next instruction.
    pub program_counter: u16,
    /// The general-purpose register.
    pub accumulator: u32,
    /// Kept for the results of comparisons. No instruction writes it yet.
    pub condition_flags: u8,
    /// No instruction uses it yet.
    pub stack_pointer: u8,
}

impl MachineState {
    /// The image has the length of a program image.
    pub open spec fn well_formed(self) -> bool {
        self.image.len() == IMAGE_BYTES
    }

    /// The state of a machine that was just built on `image`.
    pub open spec fn initial(image: Seq<u8>) -> MachineState {
        MachineState {
            image,
            program_counter: 0,
            accumulator: 0,
            condition_flags: 0,
            stack_pointer: 0,
        }
    }

    /// The bytes in the slot at the program counter.
    pub open spec fn fetched(self) -> Seq<u8> {
        slot_at(self.image, self.program_counter)
    }

    /// The state with the program counter at the next slot.
    pub open spec fn advanced(self) -> MachineState
        recommends
            in_code(self.program_counter),
    {
        MachineState { program_counter: (self.program_counter + 1) as u16, ..self }
    }

    /// The state after `instruction`, or the fault that it ends in.
    pub open spec fn executed(self, instruction: Instruction) -> Result<MachineState, Fault>
        recommends
            self.well_formed(),
            in_code(self.program_counter),
    {
        let program_counter = self.program_counter;
        match instruction {
            Instruction::Compare { .. } | Instruction::JumpIfBelow { .. } | Instruction::Halt => Err(
                Fault::UnimplementedInstruction { instruction, program_counter },
            ),
            Instruction::Load { x, y }
            | Instruction::Store { x, y }
            | Instruction::Add { x, y }
            | Instruction::Subtract { x, y }
            | Instruction::Jump { x, y } => {
                let word = word_at(self.image, x, y);
                if !addressable(x, y) {
                    Err(Fault::AddressOutOfBounds { instruction, program_counter })
                } else if instruction is Load {
                    Ok(MachineState { accumulator: word, ..self.advanced() })
                } else if instruction is Store {
                    Ok(
                        MachineState {
                            image: with_word(self.image, x, y, self.accumulator),
                            ..self.advanced()
                        },
                    )
                } else if instruction is Add {
                    Ok(
                        MachineState {
                            accumulator: wrapping_sum(self.accumulator, word),
                            ..self.advanced()
                        },
                    )
                } else if instruction is Subtract {
                    Ok(
                        MachineState {
                            accumulator: wrapping_difference(self.accumulator, word),
                            ..self.advanced()
                        },
                    )
                } else if word <= u16::MAX {
                    Ok(MachineState { program_counter: word as u16, ..self })
                } else {
                    Err(Fault::ProgramCounterOverflow { target: word, program_counter })
                }
            },
        }
    }

    /// The state after one step, or the fault that the step ends in.
    pub open spec fn stepped(self) -> Result<MachineState, Fault>
        recommends
            self.well_formed(),
    {
        let bytes = self.fetched();
        if !in_code(self.program_counter) {
            Err(Fault::ProgramCounterOutOfBounds { program_counter: self.program_counter })
        } else {
            match decoded(bytes) {
                Some(instruction) => self.executed(instruction),
                None => Err(
                    Fault::UnrecognizedInstruction {
                        bytes: [bytes[0], bytes[1], bytes[2], bytes[3]],
                        program_counter: self.program_counter,
                    },
                ),
            }
        }
    }
}

/// A step keeps the image at its length, and no step writes the condition
/// flags or the stack pointer.
pub proof fn lemma_step_preserves(state: MachineState)
    requires
        state.well_formed(),
        state.stepped() is Ok,
    ensures
        state.stepped().unwrap().well_formed(),
        state.stepped().unwrap().condition_flags == state.condition_flags,
        state.stepped().unwrap().stack_pointer == state.stack_pointer,
{
}

/// Whether a step ends in a fault, and in which, depends on the program
/// counter and the image alone: in particular, no value of the accumulator
/// makes an instruction fault.
pub proof fn lemma_fault_depends_on_counter_and_image(state: MachineState, other: MachineState)
    requires
        state.well_formed(),
        other.image == state.image,
        other.program_counter == state.program_counter,
    ensures
        state.stepped() is Err <==> other.stepped() is Err,
        state.stepped() is Err ==> other.stepped()->Err_0 == state.stepped()->Err_0,
{
}

/// A step changes at most one of the accumulator, the image, and the order
/// of execution: a load, an addition or a subtraction leaves the image as it
/// was, a store leaves the accumulator, and a jump leaves both.
pub proof fn lemma_step_changes_one_thing(state: MachineState, instruction: Instruction)
    requires
        state.well_formed(),
        in_code(state.program_counter),
        state.executed(instruction) is Ok,
    ensures
        ({
            let next = state.executed(instruction).unwrap();
            &&& instruction is Store || next.image == state.image
            &&& instruction is Load || instruction is Add || instruction is Subtract
                || next.accumulator == state.accumulator
            &&& instruction is Jump || next.program_counter == state.program_counter + 1
        }),
{
}

/// A word that `SR x y` has stored is the word that `LR x y` then loads,
/// whatever the accumulator held in between.
pub proof fn lemma_store_then_load(state: MachineState, x: u8, y: u8, fresh: u32)
    requires
        state.well_formed(),
        addressable(x, y),
    ensures
        state.executed(Instruction::Store { x, y }) is Ok,
        ({
            let stored = state.executed(Instruction::Store { x, y }).unwrap();
            let cleared = MachineState { accumulator: fresh, ..stored };
            &&& cleared.executed(Instruction::Load { x, y }) is Ok
            &&& cleared.executed(Instruction::Load { x, y }).unwrap().accumulator
                == state.accumulator
        }),
{
    lemma_read_after_write(state.image, x, y, state.accumulator);
}

/// The same over two whole steps: where the slot at the program counter
/// holds `SR x y` and, once that has run, the slot then at the program
/// counter holds `LR x y`, the second step loads what the accumulator held
/// before the first.
pub proof fn lemma_store_then_load_steps(state: MachineState, x: u8, y: u8, fresh: u32)
    requires
        state.well_formed(),
        addressable(x, y),
        in_code(state.program_counter),
        decoded(state.fetched()) == Some(Instruction::Store { x, y }),
        state.stepped() matches Ok(stored) && in_code(stored.program_counter) && decoded(
            stored.fetched(),
        ) == Some(Instruction::Load { x, y }),
    ensures
        ({
            let cleared = MachineState { accumulator: fresh, ..state.stepped().unwrap() };
            &&& cleared.stepped() is Ok
            &&& cleared.stepped().unwrap().accumulator == state.accumulator
        }),
{
    lemma_store_then_load(state, x, y, fresh);
}

/// `AD` and `SU` fault on no value of the accumulator or of the word: they
/// succeed wherever their operands name a word of the image, and leave the
/// sum or the difference modulo 2^32 in the accumulator.
pub proof fn lemma_arithmetic_wraps(state: MachineState, x: u8, y: u8)
    requires
        state.well_formed(),
    ensures
        state.executed(Instruction::Add { x, y }) is Ok <==> addressable(x, y),
        state.executed(Instruction::Subtract { x, y }) is Ok <==> addressable(x, y),
        addressable(x, y) ==> ({
            let word = word_at(state.image, x, y);
            let sum = state.executed(Instruction::Add { x, y }).unwrap();
            let difference = state.executed(Instruction::Subtract { x, y }).unwrap();
            &&& sum.accumulator == (state.accumulator + word) % 0x1_0000_0000
            &&& difference.accumulator == (state.accumulator - word) % 0x1_0000_0000
        }),
{
}

/// Every step that succeeds on an instruction other than `JP` moves the
/// program counter to the next slot.
pub proof fn lemma_sequential_advance(state: MachineState)
    requires
        state.well_formed(),
        state.stepped() is Ok,
        !(decoded(state.fetched()) matches Some(Instruction::Jump { .. })),
    ensures
        state.stepped().unwrap().program_counter == state.program_counter + 1,
{
}

/// `JP x y` sets the program counter to the word at `(x, y)`, whatever the
/// counter was, and changes nothing else; the next step fetches from the
/// slot of that number.
pub proof fn lemma_jump_is_absolute(state: MachineState, x: u8, y: u8)
    requires
        state.well_formed(),
        in_code(state.program_counter),
        decoded(state.fetched()) == Some(Instruction::Jump { x, y }),
        addressable(x, y),
        word_at(state.image, x, y) <= u16::MAX,
    ensures
        state.stepped() == Ok::<MachineState, Fault>(
            MachineState { program_counter: word_at(state.image, x, y) as u16, ..state },
        ),
        state.stepped().unwrap().fetched() == slot_at(
            state.image,
            word_at(state.image, x, y) as u16,
        ),
{
}

/// Where the bytes in the slot at the program counter spell no mnemonic, the
/// step ends in the fault that carries those bytes and the program counter.
pub proof fn lemma_unrecognized(state: MachineState)
    requires
        state.well_formed(),
        in_code(state.program_counter),
        decoded(state.fetched()) is None,
    ensures
        state.stepped() matches Err(Fault::UnrecognizedInstruction { bytes, program_counter })
            && bytes@ == state.fetched() && program_counter == state.program_counter,
{
    let fetched = state.fetched();
    assert([fetched[0], fetched[1], fetched[2], fetched[3]]@ =~= fetched);
}

} // verus!
