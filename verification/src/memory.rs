//! The memory: 32768 cells of one word each, with checked access.

use vstd::prelude::*;
use crate::extensions::MemoryValue;
use crate::svm_constants::MEMORY_SIZE_MAX;
use crate::svm_error::SVMError;

verus! {

/// The contents of a memory: one word for each address.
pub type MemoryArray = [u16; MEMORY_SIZE_MAX];

/// The flat memory of the machine. Its view is the sequence of its 32768
/// words.
pub struct Memory {
    memory: MemoryArray,
}

impl View for Memory {
    type V = Seq<u16>;

    closed spec fn view(&self) -> Seq<u16> {
        self.memory@
    }
}

impl Memory {
    /// What a load from `address` gives in a memory that holds `cells`.
    pub open spec fn spec_load(cells: Seq<u16>, address: u16) -> Result<u16, SVMError> {
        if address <= 32767 {
            Ok(cells[address as int])
        } else {
            Err(SVMError::InvalidMemory)
        }
    }

    /// What a memory that held `cells` holds after a store of `value` to
    /// `address`: a store to an invalid address changes nothing.
    pub open spec fn spec_store(cells: Seq<u16>, address: u16, value: u16) -> Seq<u16> {
        if address <= 32767 {
            cells.update(address as int, value)
        } else {
            cells
        }
    }

    /// Every memory has 32768 cells.
    pub proof fn lemma_size(&self)
        ensures
            self@.len() == 32768,
    {
    }

    /// A memory that holds `data`.
    pub fn new(data: MemoryArray) -> (memory: Memory)
        ensures
            memory@ == data@,
    {
        Memory { memory: data }
    }

    /// Writes `value` to the cell at `address`. An address beyond memory is
    /// refused with `InvalidMemory`, and nothing changes.
    pub fn store_memory(&mut self, address: u16, value: u16) -> (stored: Result<(), SVMError>)
        ensures
            stored is Ok <==> address <= 32767,
            stored is Err ==> stored == Err::<(), SVMError>(SVMError::InvalidMemory),
            final(self)@ == Self::spec_store(old(self)@, address, value),
    {
        if !address.is_valid_memory_address() {
            Err(SVMError::InvalidMemory)
        } else {
            let address_value = address as usize;
            self.memory[address_value] = value;
            Ok(())
        }
    }

    /// The word in the cell at `address`, or `InvalidMemory` for an address
    /// beyond memory.
    pub fn load_memory(&self, address: u16) -> (loaded: Result<u16, SVMError>)
        ensures
            loaded is Ok <==> address <= 32767,
            loaded == Self::spec_load(self@, address),
    {
        if !address.is_valid_memory_address() {
            Err(SVMError::InvalidMemory)
        } else {
            let address_value = address as usize;
            Ok(self.memory[address_value])
        }
    }

    /// A value stored at a valid address is the value loaded from it
    /// afterwards, and every other address still loads what it did.
    pub proof fn lemma_store_then_load(&self, address: u16, value: u16, other: u16)
        requires
            address <= 32767,
        ensures
            Self::spec_load(Self::spec_store(self@, address, value), address) == Ok::<u16, SVMError>(value),
            other != address ==> Self::spec_load(Self::spec_store(self@, address, value), other)
                == Self::spec_load(self@, other),
    {
    }
}

} // verus!
