//! The sizes of the machine.

use vstd::prelude::*;

verus! {

/// Number of words in memory; valid addresses are `0..MEMORY_SIZE_MAX`.
pub const MEMORY_SIZE_MAX: usize = 32768;

/// Number of registers.
pub const NUM_OF_REGISTERS: usize = 8;

/// The raw word that denotes register 0. Register `i` is written
/// `REGISTER_BASE + i`.
pub const REGISTER_BASE: u16 = 32768;

/// Machine values are taken modulo this number: the high bit of a word never
/// belongs to a computed value.
pub const WORD_MODULUS: u32 = 32768;

} // verus!
