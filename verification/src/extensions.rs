//! What a word means where it is used as an address or as an operand.

use vstd::prelude::*;
use crate::registers::Registers;
use crate::svm_constants::{MEMORY_SIZE_MAX, NUM_OF_REGISTERS, REGISTER_BASE};
use crate::svm_error::SVMError;

verus! {

/// A word seen as a memory address.
pub trait MemoryValue {
    /// Whether the word lies in the address space `0..=32767`.
    spec fn spec_is_valid_memory_address(&self) -> bool;

    /// Whether the word is an address of a memory cell.
    fn is_valid_memory_address(&self) -> (valid: bool)
        ensures
            valid == self.spec_is_valid_memory_address(),
    ;
}

impl MemoryValue for u16 {
    open spec fn spec_is_valid_memory_address(&self) -> bool {
        *self <= 32767
    }

    fn is_valid_memory_address(&self) -> (valid: bool) {
        (*self as usize) < MEMORY_SIZE_MAX
    }
}

/// A word seen as an operand: either the encoding of a register or a literal.
pub trait RegisterValue {
    /// Whether the word encodes a register, that is lies in `32768..=32775`.
    spec fn spec_is_valid_register(&self) -> bool;

    /// The index of the register that the word encodes.
    spec fn spec_get_register_index(&self) -> int
        recommends
            self.spec_is_valid_register(),
    ;

    /// The value that the word stands for, given what the registers hold:
    /// the content of the register it encodes, or else the word itself.
    spec fn spec_unwrap_potential_register(&self, registers: Seq<u16>) -> u16;

    /// The index of the register that the word encodes. Only an encoding of
    /// a register has one.
    fn get_register_index(&self) -> (index: u16)
        requires
            self.spec_is_valid_register(),
        ensures
            index == self.spec_get_register_index(),
            0 <= index <= 7,
    ;

    /// Whether the word encodes a register.
    fn is_valid_register(&self) -> (valid: bool)
        ensures
            valid == self.spec_is_valid_register(),
    ;

    /// The value that the word stands for: the content of the register it
    /// encodes, or else the word itself, also where it lies above the
    /// encodings of the registers. This never fails.
    fn unwrap_potential_register(&self, registers: &Registers) -> (value: Result<u16, SVMError>)
        ensures
            value == Ok::<u16, SVMError>(self.spec_unwrap_potential_register(registers@)),
    ;
}

impl RegisterValue for u16 {
    open spec fn spec_is_valid_register(&self) -> bool {
        32768 <= *self <= 32775
    }

    open spec fn spec_get_register_index(&self) -> int {
        *self - 32768
    }

    open spec fn spec_unwrap_potential_register(&self, registers: Seq<u16>) -> u16 {
        if self.spec_is_valid_register() {
            registers[self.spec_get_register_index()]
        } else {
            *self
        }
    }

    fn get_register_index(&self) -> (index: u16) {
        *self - REGISTER_BASE
    }

    fn is_valid_register(&self) -> (valid: bool) {
        *self >= REGISTER_BASE && *self - REGISTER_BASE < NUM_OF_REGISTERS as u16
    }

    fn unwrap_potential_register(&self, registers: &Registers) -> (value: Result<u16, SVMError>) {
        if self.is_valid_register() {
            registers.get_register(*self)
        } else {
            Ok(*self)
        }
    }
}

} // verus!
