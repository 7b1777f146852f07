//! The machine: a program image, a register file, and the step that
//! fetches, decodes and executes one instruction.
use crate::fault::Fault;
use crate::image::ProgramImage;
use crate::instruction::Instruction;
use crate::layout::IMAGE_BYTES;
use crate::state::MachineState;
use vstd::prelude::*;

verus! {

/// A machine. It owns its image and its registers, and only `advance`
/// changes them.
#[derive(Debug)]
pub struct VirtualMachine {
    program: ProgramImage,
    program_counter: u16,
    accumulator: u32,
    condition_flags: u8,
    stack_pointer: u8,
}

impl View for VirtualMachine {
    type V = MachineState;

    closed spec fn view(&self) -> MachineState {
        MachineState {
            image: self.program@,
            program_counter: self.program_counter,
            accumulator: self.accumulator,
            condition_flags: self.condition_flags,
            stack_pointer: self.stack_pointer,
        }
    }
}

impl VirtualMachine {
    /// Builds a machine on a program image, with every register at zero.
    pub fn new(program: ProgramImage) -> (vm: VirtualMachine)
        ensures
            vm@ == MachineState::initial(program@),
            vm@.well_formed(),
    {
        VirtualMachine {
            program,
            program_counter: 0,
            accumulator: 0,
            condition_flags: 0,
            stack_pointer: 0,
        }
    }

    /// Builds a machine on a buffer, which must hold exactly as many bytes
    /// as a program image has. No machine is built on any other buffer.
    pub fn from_bytes(bytes: &[u8]) -> (result: Result<VirtualMachine, Fault>)
        ensures
            match result {
                Ok(vm) => bytes@.len() == IMAGE_BYTES && vm@ == MachineState::initial(bytes@),
                Err(fault) => bytes@.len() != IMAGE_BYTES && fault == (Fault::MalformedProgramImage {
                    length: bytes@.len() as usize,
                }),
            },
    {
        match ProgramImage::from_bytes(bytes) {
            Ok(program) => Ok(VirtualMachine::new(program)),
            Err(fault) => Err(fault),
        }
    }

    /// The state of a machine is well formed.
    pub proof fn lemma_well_formed(self)
        ensures
            self@.well_formed(),
    {
    }

    /// The slot of the code region that holds the next instruction.
    pub fn program_counter(&self) -> (value: u16)
        ensures
            value == self@.program_counter,
    {
        self.program_counter
    }

    /// The general-purpose register.
    pub fn accumulator(&self) -> (value: u32)
        ensures
            value == self@.accumulator,
    {
        self.accumulator
    }

    /// The register kept for the results of comparisons.
    pub fn condition_flags(&self) -> (value: u8)
        ensures
            value == self@.condition_flags,
    {
        self.condition_flags
    }

    /// The stack pointer.
    pub fn stack_pointer(&self) -> (value: u8)
        ensures
            value == self@.stack_pointer,
    {
        self.stack_pointer
    }

    /// The image as it stands.
    pub fn image(&self) -> (image: &ProgramImage)
        ensures
            image@ == self@.image,
    {
        &self.program
    }

    /// Executes the instruction in the slot at the program counter.
    ///
    /// The image is read anew at every step, so a program that has stored
    /// into its own code runs what it stored. A step that ends in a fault
    /// changes nothing.
    pub fn advance(&mut self) -> (result: Result<(), Fault>)
        ensures
            match old(self)@.stepped() {
                Ok(next) => result is Ok && final(self)@ == next,
                Err(fault) => result == Err::<(), Fault>(fault) && final(self)@ == old(self)@,
            },
            final(self)@.well_formed(),
    {
        let program_counter: u16 = self.program_counter;
        let bytes = match self.program.instruction_at(program_counter) {
            Some(bytes) => bytes,
            None => {
                return Err(Fault::ProgramCounterOutOfBounds { program_counter });
            },
        };
        let instruction = match Instruction::decode(bytes) {
            Some(instruction) => instruction,
            None => {
                assert(bytes =~= [bytes@[0], bytes@[1], bytes@[2], bytes@[3]]);
                return Err(Fault::UnrecognizedInstruction { bytes, program_counter });
            },
        };
        let (x, y) = match instruction {
            Instruction::Compare { .. } | Instruction::JumpIfBelow { .. } | Instruction::Halt => {
                return Err(Fault::UnimplementedInstruction { instruction, program_counter });
            },
            Instruction::Load { x, y }
            | Instruction::Store { x, y }
            | Instruction::Add { x, y }
            | Instruction::Subtract { x, y }
            | Instruction::Jump { x, y } => (x, y),
        };
        let word: u32 = match self.program.word_at(x, y) {
            Some(word) => word,
            None => {
                return Err(Fault::AddressOutOfBounds { instruction, program_counter });
            },
        };
        let next: u16 = match instruction {
            Instruction::Load { .. } => {
                self.accumulator = word;
                program_counter + 1
            },
            Instruction::Store { .. } => {
                self.program.set_word(x, y, self.accumulator);
                program_counter + 1
            },
            Instruction::Add { .. } => {
                self.accumulator = self.accumulator.wrapping_add(word);
                program_counter + 1
            },
            Instruction::Subtract { .. } => {
                self.accumulator = self.accumulator.wrapping_sub(word);
                program_counter + 1
            },
            // `JP`: the instructions without an effect have returned above.
            _ => {
                if word > 0xffff {
                    return Err(Fault::ProgramCounterOverflow { target: word, program_counter });
                }
                word as u16
            },
        };
        self.program_counter = next;
        Ok(())
    }
}

} // verus!
