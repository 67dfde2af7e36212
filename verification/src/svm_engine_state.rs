//! The state of a machine, and its mathematical model.

use vstd::prelude::*;
use crate::instruction_pointer::InstructionPointer;
use crate::memory::{Memory, MemoryArray};
use crate::registers::Registers;

verus! {

/// The state of the machine as mathematics: what the instruction pointer,
/// the registers, the memory and the stack hold. The top of the stack is the
/// last element of `stack`.
pub struct MachineState {
    pub ip: u16,
    pub registers: Seq<u16>,
    pub memory: Seq<u16>,
    pub stack: Seq<u16>,
}

impl MachineState {
    /// Eight registers and 32768 memory cells: true of the view of every
    /// [`SVMEngineState`].
    pub open spec fn wf(self) -> bool {
        &&& self.registers.len() == 8
        &&& self.memory.len() == 32768
    }
}

/// Everything that the instructions of the machine read and change.
pub struct SVMEngineState {
    pub instruction_pointer: InstructionPointer,
    pub registers: Registers,
    pub memory: Memory,
    pub stack: Vec<u16>,
}

impl View for SVMEngineState {
    type V = MachineState;

    open spec fn view(&self) -> MachineState {
        MachineState {
            ip: self.instruction_pointer@,
            registers: self.registers@,
            memory: self.memory@,
            stack: self.stack@,
        }
    }
}

impl SVMEngineState {
    /// The view of every state has eight registers and 32768 memory cells.
    pub proof fn lemma_wf(&self)
        ensures
            self@.wf(),
    {
        self.registers.lemma_size();
        self.memory.lemma_size();
    }

    /// The state in which a run begins: the program in memory, the
    /// instruction pointer and all registers zero, the stack empty.
    pub fn new(program_data: MemoryArray) -> (state: SVMEngineState)
        ensures
            state@ == (MachineState {
                ip: 0,
                registers: Seq::new(8, |i: int| 0u16),
                memory: program_data@,
                stack: Seq::empty(),
            }),
    {
        SVMEngineState {
            instruction_pointer: InstructionPointer::new(),
            registers: Registers::new(),
            memory: Memory::new(program_data),
            stack: Vec::new(),
        }
    }
}

} // verus!
