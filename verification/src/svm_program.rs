//! Program images and their decoding from bytes.

use vstd::prelude::*;
use vstd::slice::slice_subrange;
use byteorder::{ByteOrder, LittleEndian};
use crate::svm_constants::MEMORY_SIZE_MAX;

verus! {

/// The words of a program image: one for each memory cell.
pub type ByteCodeArray = [u16; MEMORY_SIZE_MAX];

/// The word that two bytes encode, the low byte first.
pub open spec fn spec_word(low: u8, high: u8) -> u16 {
    (low + 256 * high) as u16
}

/// The image that a sequence of bytes decodes to: word `i` is encoded by the
/// bytes `2 * i` and `2 * i + 1`, and the cells after the last word are
/// zero.
pub open spec fn spec_image(bytes: Seq<u8>) -> Seq<u16> {
    Seq::new(
        32768,
        |i: int|
            if 2 * i + 1 < bytes.len() {
                spec_word(bytes[2 * i], bytes[2 * i + 1])
            } else {
                0u16
            },
    )
}

/// Reads the word that the first two bytes of `buf` encode in little-endian
/// order, with `byteorder::ByteOrder::read_u16` of `byteorder::LittleEndian`.
/// That function returns `u16::from_le_bytes` of the first two bytes, and
/// panics on a shorter slice.
#[verifier::external_body]
fn read_word(buf: &[u8]) -> (word: u16)
    requires
        buf@.len() >= 2,
    ensures
        word == spec_word(buf@[0], buf@[1]),
{
    LittleEndian::read_u16(buf)
}

/// A program image: the initial contents of memory, and how many of its
/// words the program occupies. Its view is the image.
pub struct SVMProgram {
    bytecode_size: usize,
    bytecode: ByteCodeArray,
}

impl View for SVMProgram {
    type V = Seq<u16>;

    closed spec fn view(&self) -> Seq<u16> {
        self.bytecode@
    }
}

impl SVMProgram {
    /// The number of words that the program occupies.
    pub closed spec fn spec_size(&self) -> nat {
        self.bytecode_size as nat
    }

    /// Decodes a program from the bytes of its file: little-endian words,
    /// placed from address 0 on. The bytes must be whole words, and no more
    /// of them than memory holds.
    pub fn new(file_data: &[u8]) -> (program: SVMProgram)
        requires
            file_data@.len() % 2 == 0,
            file_data@.len() <= 2 * 32768,
        ensures
            program@ == spec_image(file_data@),
            program.spec_size() == file_data@.len() / 2,
    {
        let file_size = file_data.len();
        let mut position: usize = 0;
        let mut bytecode_size: usize = 0;
        let mut bytecode: ByteCodeArray = [0; MEMORY_SIZE_MAX];
        while position < file_size
            invariant
                file_size == file_data@.len(),
                file_size % 2 == 0,
                file_size <= 2 * 32768,
                position == 2 * bytecode_size,
                position <= file_size,
                forall|i: int| 0 <= i < bytecode_size ==> bytecode@[i] == spec_image(file_data@)[i],
                forall|i: int| bytecode_size <= i < 32768 ==> bytecode@[i] == 0,
            decreases file_size - position,
        {
            let pair = slice_subrange(file_data, position, position + 2);
            bytecode[bytecode_size] = read_word(pair);
            bytecode_size += 1;
            position += 2;
        }
        assert(bytecode@ =~= spec_image(file_data@));
        SVMProgram { bytecode_size, bytecode }
    }

    /// The image.
    pub fn get_bytecode(&self) -> (bytecode: ByteCodeArray)
        ensures
            bytecode@ == self@,
    {
        self.bytecode
    }

    /// The number of words that the program occupies.
    pub fn get_bytecode_size(&self) -> (size: usize)
        ensures
            size == self.spec_size(),
    {
        self.bytecode_size
    }
}

} // verus!
