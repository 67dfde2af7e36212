//! A virtual machine for a 16-bit register-and-stack instruction set.
//!
//! The machine owns a flat memory of 32768 words, eight registers, an
//! unbounded stack and an instruction pointer. Every component checks the
//! addresses it is given, and every instruction is described by a
//! mathematical model that the executable code is proved against.

pub mod svm_constants;
pub mod svm_error;
pub mod extensions;
pub mod memory;
pub mod registers;
pub mod instruction_pointer;
pub mod svm_engine_state;
pub mod opcode;
pub mod semantics;
pub mod svm_program;
pub mod svm_engine;
