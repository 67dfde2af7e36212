//! The eight registers, addressed by the words `32768..=32775`.

use vstd::prelude::*;
use crate::extensions::RegisterValue;
use crate::svm_constants::NUM_OF_REGISTERS;
use crate::svm_error::SVMError;

verus! {

/// The eight registers of the machine. Its view is the sequence of their
/// values, register 0 first.
pub struct Registers {
    registers: [u16; NUM_OF_REGISTERS],
}

impl View for Registers {
    type V = Seq<u16>;

    closed spec fn view(&self) -> Seq<u16> {
        self.registers@
    }
}

impl Registers {
    /// What reading the register that `register` encodes gives when the
    /// registers hold `values`.
    pub open spec fn spec_get(values: Seq<u16>, register: u16) -> Result<u16, SVMError> {
        if register.spec_is_valid_register() {
            Ok(values[register.spec_get_register_index()])
        } else {
            Err(SVMError::InvalidRegister)
        }
    }

    /// What registers that held `values` hold after `value` is written to
    /// the register that `register` encodes: a write to a word that encodes
    /// no register changes nothing.
    pub open spec fn spec_set(values: Seq<u16>, register: u16, value: u16) -> Seq<u16> {
        if register.spec_is_valid_register() {
            values.update(register.spec_get_register_index(), value)
        } else {
            values
        }
    }

    /// There are always eight registers.
    pub proof fn lemma_size(&self)
        ensures
            self@.len() == 8,
    {
    }

    /// Eight registers that hold zero.
    pub fn new() -> (registers: Registers)
        ensures
            registers@ == Seq::new(8, |i: int| 0u16),
    {
        Registers { registers: [0; NUM_OF_REGISTERS] }
    }

    /// The content of the register that `register` encodes, or
    /// `InvalidRegister` for a word that encodes none.
    pub fn get_register(&self, register: u16) -> (value: Result<u16, SVMError>)
        ensures
            value is Ok <==> 32768 <= register <= 32775,
            value == Self::spec_get(self@, register),
    {
        if !register.is_valid_register() {
            Err(SVMError::InvalidRegister)
        } else {
            let register_index = register.get_register_index() as usize;
            Ok(self.registers[register_index])
        }
    }

    /// Writes `value` to the register that `register` encodes. A word that
    /// encodes none is refused with `InvalidRegister`, and nothing changes.
    pub fn set_register(&mut self, register: u16, value: u16) -> (written: Result<(), SVMError>)
        ensures
            written is Ok <==> 32768 <= register <= 32775,
            written is Err ==> written == Err::<(), SVMError>(SVMError::InvalidRegister),
            final(self)@ == Self::spec_set(old(self)@, register, value),
    {
        if !register.is_valid_register() {
            Err(SVMError::InvalidRegister)
        } else {
            let register_index = register.get_register_index() as usize;
            self.registers[register_index] = value;
            Ok(())
        }
    }

    /// A value written to a register is the value read from it afterwards,
    /// and every other register still holds what it did.
    pub proof fn lemma_set_then_get(&self, register: u16, value: u16, other: u16)
        requires
            32768 <= register <= 32775,
        ensures
            Self::spec_get(Self::spec_set(self@, register, value), register) == Ok::<u16, SVMError>(value),
            other != register ==> Self::spec_get(Self::spec_set(self@, register, value), other)
                == Self::spec_get(self@, other),
    {
    }
}

} // verus!
