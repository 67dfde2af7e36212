//! The faults of the machine.

use vstd::prelude::*;

verus! {

/// The faults of the machine. Each one ends the run.
#[derive(Clone, Copy, Debug, PartialEq, Eq, Structural)]
pub enum SVMError {
    /// An address outside `0..=32767` was used for a load, a store or as a
    /// target of the instruction pointer.
    InvalidMemory,
    /// A word outside `0..=21` was fetched where an opcode was expected.
    InvalidOpCode,
    /// A word outside `32768..=32775` was used where a register was required.
    InvalidRegister,
    /// The input boundary failed.
    ReadError,
    /// A value was popped from an empty stack.
    StackEmpty,
    /// The output boundary failed.
    WriteError,
    /// The divisor of a remainder was zero.
    DivideByZero,
}

impl SVMError {
    /// The text of [`SVMError::message`].
    pub open spec fn spec_message(self) -> Seq<char> {
        match self {
            SVMError::InvalidMemory => "Memory Error"@,
            SVMError::InvalidOpCode => "Invalid Opcode"@,
            SVMError::InvalidRegister => "Invalid Register"@,
            SVMError::ReadError => "Read error"@,
            SVMError::StackEmpty => "Stack error"@,
            SVMError::WriteError => "Write error"@,
            SVMError::DivideByZero => "Division by zero"@,
        }
    }

    /// The line that names this fault in a diagnostic.
    pub fn message(&self) -> (text: &'static str)
        ensures
            text@ == self.spec_message(),
    {
        match self {
            SVMError::InvalidMemory => "Memory Error",
            SVMError::InvalidOpCode => "Invalid Opcode",
            SVMError::InvalidRegister => "Invalid Register",
            SVMError::ReadError => "Read error",
            SVMError::StackEmpty => "Stack error",
            SVMError::WriteError => "Write error",
            SVMError::DivideByZero => "Division by zero",
        }
    }
}

} // verus!
