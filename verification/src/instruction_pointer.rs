//! The instruction pointer and the fetch of the next word.

use vstd::prelude::*;
use crate::extensions::MemoryValue;
use crate::memory::Memory;
use crate::svm_error::SVMError;

verus! {

/// The program counter. Its view is the address it holds: that of the word
/// that was fetched last.
pub struct InstructionPointer {
    ip: u16,
}

impl View for InstructionPointer {
    type V = u16;

    closed spec fn view(&self) -> u16 {
        self.ip
    }
}

impl InstructionPointer {
    /// A pointer that stands on address 0.
    pub fn new() -> (pointer: InstructionPointer)
        ensures
            pointer@ == 0,
    {
        InstructionPointer { ip: 0 }
    }

    /// Moves the pointer to `address`. An address beyond memory is refused
    /// with `InvalidMemory`, and the pointer stays where it is.
    pub fn set_ip(&mut self, address: u16) -> (moved: Result<(), SVMError>)
        ensures
            moved is Ok <==> address <= 32767,
            moved is Ok ==> final(self)@ == address,
            moved is Err ==> moved == Err::<(), SVMError>(SVMError::InvalidMemory) && final(self)@ == old(self)@,
    {
        if !address.is_valid_memory_address() {
            Err(SVMError::InvalidMemory)
        } else {
            self.ip = address;
            Ok(())
        }
    }

    /// The address on which the pointer stands.
    pub fn get_ip(&self) -> (address: u16)
        ensures
            address == self@,
    {
        self.ip
    }

    /// Moves the pointer to the next address and loads the word there. The
    /// pointer moves even where the load fails, which it does with
    /// `InvalidMemory` where the next address lies beyond memory.
    pub fn get_next_memory_value(&mut self, memory: &Memory) -> (word: Result<u16, SVMError>)
        requires
            old(self)@ < u16::MAX,
        ensures
            final(self)@ == old(self)@ + 1,
            word == Memory::spec_load(memory@, final(self)@),
    {
        self.ip += 1;
        memory.load_memory(self.ip)
    }
}

} // verus!
