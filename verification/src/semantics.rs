//! The meaning of each instruction, as a function on [`MachineState`].
//!
//! An instruction finds its operands in the words that follow the
//! instruction pointer. It first moves the pointer over them, one fetch per
//! operand, and then applies its effect. An operand is used either raw, as it
//! stands in memory, or by its value: the content of the register that it
//! encodes, or else the word itself.
//!
//! The pointer always stands on the word that was fetched last. A jump to an
//! address leaves the pointer on that address, so the opcode that is fetched
//! next is the word after it; `Call` pushes the address of its own operand,
//! so `Ret` goes on with the word after the `Call`.

use vstd::prelude::*;
use crate::extensions::RegisterValue;
use crate::memory::Memory;
use crate::opcode::{Outcome, SVMOpCode, Signal};
use crate::registers::Registers;
use crate::svm_engine_state::MachineState;
use crate::svm_error::SVMError;

verus! {

/// Sum of two words, modulo 32768.
pub open spec fn word_sum(left: u16, right: u16) -> u16 {
    ((left + right) % 32768) as u16
}

/// Product of two words, modulo 32768. The product itself is the
/// mathematical one: nothing is lost before the remainder is taken.
pub open spec fn word_product(left: u16, right: u16) -> u16 {
    ((left * right) % 32768) as u16
}

/// Bitwise complement of a word, within its low 15 bits.
pub open spec fn word_complement(value: u16) -> u16 {
    !value & 0x7FFF
}

/// The low 8 bits of a word.
pub open spec fn low_byte(value: u16) -> u8 {
    (value % 256) as u8
}

/// The number of operand words that follow the opcode of an instruction.
pub open spec fn operand_count(opcode: SVMOpCode) -> int {
    match opcode {
        SVMOpCode::Halt | SVMOpCode::Ret | SVMOpCode::NoOp => 0,
        SVMOpCode::Push | SVMOpCode::Pop | SVMOpCode::Jmp | SVMOpCode::Call | SVMOpCode::Out
        | SVMOpCode::In => 1,
        SVMOpCode::SetRegister | SVMOpCode::Jt | SVMOpCode::Jf | SVMOpCode::Not | SVMOpCode::Rmem
        | SVMOpCode::Wmem => 2,
        SVMOpCode::Eq | SVMOpCode::Gt | SVMOpCode::Add | SVMOpCode::Mult | SVMOpCode::Mod
        | SVMOpCode::And | SVMOpCode::Or => 3,
    }
}

impl MachineState {
    /// The word that stands `offset` cells after the instruction pointer.
    pub open spec fn operand(self, offset: int) -> u16 {
        self.memory[self.ip + offset]
    }

    /// The value that a raw operand stands for.
    pub open spec fn value(self, raw: u16) -> u16 {
        raw.spec_unwrap_potential_register(self.registers)
    }

    /// Whether `count` words can be fetched one after the other.
    pub open spec fn can_fetch(self, count: int) -> bool {
        self.ip + count <= 32767
    }

    /// The state after `count` fetches that all succeeded.
    pub open spec fn advance(self, count: int) -> MachineState {
        MachineState { ip: (self.ip + count) as u16, ..self }
    }

    /// The state after a run of fetches of which one failed: the pointer
    /// stands on the first address beyond memory that it reached.
    pub open spec fn run_off(self) -> MachineState {
        MachineState { ip: if self.ip >= 32767 { (self.ip + 1) as u16 } else { 32768u16 }, ..self }
    }

    /// The same state with another stack.
    pub open spec fn with_stack(self, stack: Seq<u16>) -> MachineState {
        MachineState { stack, ..self }
    }

    /// Writes `value` to the register that `destination` encodes. A
    /// destination that encodes no register is the fault `InvalidRegister`.
    pub open spec fn write_register(self, destination: u16, value: u16) -> (MachineState, Outcome) {
        if destination.spec_is_valid_register() {
            (
                MachineState { registers: Registers::spec_set(self.registers, destination, value), ..self },
                Ok(Signal::Continue),
            )
        } else {
            (self, Err(SVMError::InvalidRegister))
        }
    }

    /// Writes `value` to the memory cell at `address`. An address beyond
    /// memory is the fault `InvalidMemory`.
    pub open spec fn write_memory(self, address: u16, value: u16) -> (MachineState, Outcome) {
        if address <= 32767 {
            (
                MachineState { memory: Memory::spec_store(self.memory, address, value), ..self },
                Ok(Signal::Continue),
            )
        } else {
            (self, Err(SVMError::InvalidMemory))
        }
    }

    /// Writes `value` to the register that `destination` encodes, or, where
    /// it encodes none, to the memory cell at that address.
    pub open spec fn write_through(self, destination: u16, value: u16) -> (MachineState, Outcome) {
        if destination.spec_is_valid_register() {
            self.write_register(destination, value)
        } else {
            self.write_memory(destination, value)
        }
    }

    /// Moves the instruction pointer to `target`. A target beyond memory is
    /// the fault `InvalidMemory`, and leaves the pointer where it was.
    pub open spec fn jump(self, target: u16) -> (MachineState, Outcome) {
        if target <= 32767 {
            (MachineState { ip: target, ..self }, Ok(Signal::Continue))
        } else {
            (self, Err(SVMError::InvalidMemory))
        }
    }

    /// What an instruction does once the pointer has moved over its operands
    /// `a`, `b` and `c` (an instruction with fewer operands ignores the
    /// rest). A fault leaves what was changed before it: a popped value stays
    /// popped, a pushed return address stays pushed.
    pub open spec fn effect(self, opcode: SVMOpCode, a: u16, b: u16, c: u16) -> (MachineState, Outcome) {
        match opcode {
            SVMOpCode::Halt => (self, Ok(Signal::Halt)),
            SVMOpCode::SetRegister => self.write_register(a, self.value(b)),
            SVMOpCode::Push => (self.with_stack(self.stack.push(self.value(a))), Ok(Signal::Continue)),
            SVMOpCode::Pop => if self.stack.len() == 0 {
                (self, Err(SVMError::StackEmpty))
            } else {
                self.with_stack(self.stack.drop_last()).write_through(a, self.stack.last())
            },
            SVMOpCode::Eq => self.write_through(a, if self.value(b) == self.value(c) { 1u16 } else { 0u16 }),
            SVMOpCode::Gt => self.write_through(a, if self.value(b) > self.value(c) { 1u16 } else { 0u16 }),
            SVMOpCode::Jmp => self.jump(self.value(a)),
            SVMOpCode::Jt => if self.value(a) != 0 {
                self.jump(b)
            } else {
                (self, Ok(Signal::Continue))
            },
            SVMOpCode::Jf => if self.value(a) == 0 {
                self.jump(b)
            } else {
                (self, Ok(Signal::Continue))
            },
            SVMOpCode::Add => self.write_register(a, word_sum(self.value(b), self.value(c))),
            SVMOpCode::Mult => self.write_register(a, word_product(self.value(b), self.value(c))),
            SVMOpCode::Mod => if self.value(c) == 0 {
                (self, Err(SVMError::DivideByZero))
            } else {
                self.write_register(a, self.value(b) % self.value(c))
            },
            SVMOpCode::And => self.write_register(a, self.value(b) & self.value(c)),
            SVMOpCode::Or => self.write_register(a, self.value(b) | self.value(c)),
            SVMOpCode::Not => self.write_register(a, word_complement(self.value(b))),
            SVMOpCode::Rmem => if self.value(b) <= 32767 {
                self.write_register(a, self.memory[self.value(b) as int])
            } else {
                (self, Err(SVMError::InvalidMemory))
            },
            SVMOpCode::Wmem => self.write_memory(self.value(a), self.value(b)),
            SVMOpCode::Call => self.with_stack(self.stack.push(self.ip)).jump(self.value(a)),
            SVMOpCode::Ret => if self.stack.len() == 0 {
                (self, Err(SVMError::StackEmpty))
            } else {
                self.with_stack(self.stack.drop_last()).jump(self.stack.last())
            },
            SVMOpCode::Out => (self, Ok(Signal::Output(low_byte(self.value(a))))),
            SVMOpCode::In => (self, Ok(Signal::Input(a))),
            SVMOpCode::NoOp => (self, Ok(Signal::Continue)),
        }
    }

    /// What the instruction `opcode` does in this state, in which the
    /// pointer stands on its opcode word: it moves the pointer over its
    /// operands and applies its effect, or, where the operands reach beyond
    /// memory, ends in the fault `InvalidMemory` with nothing else changed.
    pub open spec fn execute(self, opcode: SVMOpCode) -> (MachineState, Outcome) {
        let count = operand_count(opcode);
        if count == 0 || self.can_fetch(count) {
            self.advance(count).effect(opcode, self.operand(1), self.operand(2), self.operand(3))
        } else {
            (self.run_off(), Err(SVMError::InvalidMemory))
        }
    }
}

/// A sum or a product of two words is a word of 15 bits, and it is the
/// remainder of the mathematical sum or product: no carry is lost on the way.
pub proof fn lemma_sum_and_product_in_range(left: u16, right: u16)
    ensures
        0 <= word_sum(left, right) <= 32767,
        word_sum(left, right) as int == (left as int + right as int) % 32768,
        0 <= word_product(left, right) <= 32767,
        word_product(left, right) as int == (left as int * right as int) % 32768,
{
    assert(0 <= (left as int * right as int)) by (nonlinear_arith)
        requires
            0 <= left,
            0 <= right,
    ;
}

/// The complement of a word has its high bit clear, and it is 32767 minus
/// the low 15 bits of the word.
pub proof fn lemma_complement_in_range(value: u16)
    ensures
        word_complement(value) & 0x8000 == 0,
        word_complement(value) <= 32767,
        word_complement(value) == 32767 - value % 32768,
{
    assert((!value & 0x7FFF) & 0x8000 == 0) by (bit_vector);
    assert(!value & 0x7FFF <= 32767) by (bit_vector);
    assert(!value & 0x7FFF == 32767 - value % 32768) by (bit_vector);
}

/// The low byte of a word is the word within its low 8 bits.
pub proof fn lemma_low_byte(value: u16)
    ensures
        low_byte(value) as u16 == value & 0xFF,
{
    assert(value % 256 == value & 0xFF) by (bit_vector);
}

impl MachineState {
    /// `Add` and `Mult` that run without fault leave a word of 15 bits in
    /// their destination register: the sum or the product of the values of
    /// their second and third operand, modulo 32768.
    pub proof fn lemma_add_and_mult_write_15_bits(self)
        requires
            self.wf(),
            self.can_fetch(3),
        ensures
            self.execute(SVMOpCode::Add).1 is Ok <==> self.operand(1).spec_is_valid_register(),
            self.execute(SVMOpCode::Mult).1 is Ok <==> self.operand(1).spec_is_valid_register(),
            self.operand(1).spec_is_valid_register() ==> {
                let register = self.operand(1).spec_get_register_index();
                let left = self.value(self.operand(2));
                let right = self.value(self.operand(3));
                &&& self.execute(SVMOpCode::Add).0.registers[register] == word_sum(left, right)
                &&& self.execute(SVMOpCode::Add).0.registers[register] <= 32767
                &&& self.execute(SVMOpCode::Mult).0.registers[register] == word_product(left, right)
                &&& self.execute(SVMOpCode::Mult).0.registers[register] <= 32767
            },
    {
        lemma_sum_and_product_in_range(self.value(self.operand(2)), self.value(self.operand(3)));
    }

    /// `Not` that runs without fault leaves a word with a clear high bit in
    /// its destination register.
    pub proof fn lemma_not_writes_15_bits(self)
        requires
            self.wf(),
            self.can_fetch(2),
        ensures
            self.execute(SVMOpCode::Not).1 is Ok <==> self.operand(1).spec_is_valid_register(),
            self.operand(1).spec_is_valid_register() ==> {
                let register = self.operand(1).spec_get_register_index();
                &&& self.execute(SVMOpCode::Not).0.registers[register] == word_complement(
                    self.value(self.operand(2)),
                )
                &&& self.execute(SVMOpCode::Not).0.registers[register] & 0x8000 == 0
            },
    {
        lemma_complement_in_range(self.value(self.operand(2)));
    }

    /// `Push` never faults once its operand is fetched. A `Pop` that finds
    /// the stack as the `Push` left it hands the pushed value to its
    /// destination and leaves the stack as it was before the `Push`.
    pub proof fn lemma_push_then_pop(self, later: MachineState)
        requires
            self.wf(),
            self.can_fetch(1),
            later.can_fetch(1),
            later.stack == self.execute(SVMOpCode::Push).0.stack,
        ensures
            self.execute(SVMOpCode::Push) == (
                self.advance(1).with_stack(self.stack.push(self.value(self.operand(1)))),
                Ok::<Signal, SVMError>(Signal::Continue),
            ),
            later.execute(SVMOpCode::Pop) == later.advance(1).with_stack(self.stack).write_through(
                later.operand(1),
                self.value(self.operand(1)),
            ),
    {
        let pushed = self.value(self.operand(1));
        assert(self.stack.push(pushed).drop_last() =~= self.stack);
        assert(self.stack.push(pushed).last() == pushed);
    }

    /// On an empty stack `Ret` is the fault `StackEmpty`, and so is a `Pop`
    /// whose operand lies inside memory. Neither changes anything but the
    /// instruction pointer, which `Pop` has moved over its operand.
    pub proof fn lemma_empty_stack_faults(self)
        requires
            self.stack.len() == 0,
        ensures
            self.execute(SVMOpCode::Ret) == (self, Err::<Signal, SVMError>(SVMError::StackEmpty)),
            self.can_fetch(1) ==> self.execute(SVMOpCode::Pop) == (
                self.advance(1),
                Err::<Signal, SVMError>(SVMError::StackEmpty),
            ),
    {
    }

    /// `Call` followed by a `Ret` that finds the stack as the `Call` left
    /// it: the pointer comes back to the operand of the `Call`, so that the
    /// next fetch reads the word after it, and the stack is as it was before
    /// the `Call`.
    pub proof fn lemma_call_then_ret(self, later: MachineState)
        requires
            self.wf(),
            self.can_fetch(1),
            self.value(self.operand(1)) <= 32767,
            later.stack == self.execute(SVMOpCode::Call).0.stack,
        ensures
            self.execute(SVMOpCode::Call) == (
                MachineState {
                    ip: self.value(self.operand(1)),
                    stack: self.stack.push((self.ip + 1) as u16),
                    ..self
                },
                Ok::<Signal, SVMError>(Signal::Continue),
            ),
            later.execute(SVMOpCode::Ret) == (
                MachineState { ip: (self.ip + 1) as u16, stack: self.stack, ..later },
                Ok::<Signal, SVMError>(Signal::Continue),
            ),
    {
        let pushed = (self.ip + 1) as u16;
        assert(self.stack.push(pushed).drop_last() =~= self.stack);
        assert(self.stack.push(pushed).last() == pushed);
    }

    /// `Jt` moves the instruction pointer to its second operand exactly when
    /// the value of its first operand is not zero, and `Jf` exactly when it
    /// is zero. Otherwise the pointer stands on the second operand, over
    /// which it has moved. So it does where the target of a jump that is
    /// taken lies beyond memory, which is the fault `InvalidMemory`. Nothing
    /// but the pointer changes.
    pub proof fn lemma_conditional_jumps(self)
        requires
            self.wf(),
            self.can_fetch(2),
        ensures
            ({
                let condition = self.value(self.operand(1));
                let target = self.operand(2);
                let taken = (MachineState { ip: target, ..self }, Ok::<Signal, SVMError>(Signal::Continue));
                let passed = (self.advance(2), Ok::<Signal, SVMError>(Signal::Continue));
                let refused = (self.advance(2), Err::<Signal, SVMError>(SVMError::InvalidMemory));
                &&& self.execute(SVMOpCode::Jt) == if condition == 0 {
                    passed
                } else if target <= 32767 {
                    taken
                } else {
                    refused
                }
                &&& self.execute(SVMOpCode::Jf) == if condition != 0 {
                    passed
                } else if target <= 32767 {
                    taken
                } else {
                    refused
                }
            }),
    {
    }

    /// The instruction pointer moves by one for each word that an instruction
    /// consumes: unless its operands reach beyond memory, every instruction
    /// but the jumps, `Call` and `Ret` leaves the pointer on its last
    /// operand, whether it ends in a fault or not.
    pub proof fn lemma_pointer_moves_one_per_operand(self, opcode: SVMOpCode)
        requires
            operand_count(opcode) == 0 || self.can_fetch(operand_count(opcode)),
            !(opcode is Jmp || opcode is Jt || opcode is Jf || opcode is Call || opcode is Ret),
        ensures
            self.execute(opcode).0.ip == self.ip + operand_count(opcode),
    {
    }

    /// An instruction whose operands reach beyond memory ends in the fault
    /// `InvalidMemory` and changes nothing but the instruction pointer.
    pub proof fn lemma_missing_operands_fault(self, opcode: SVMOpCode)
        requires
            self.ip < u16::MAX,
            operand_count(opcode) > 0,
            !self.can_fetch(operand_count(opcode)),
        ensures
            self.execute(opcode).1 == Err::<Signal, SVMError>(SVMError::InvalidMemory),
            self.execute(opcode).0 == (MachineState { ip: self.execute(opcode).0.ip, ..self }),
            self.execute(opcode).0.ip > 32767,
    {
    }

    /// An instruction that runs without fault leaves the instruction pointer
    /// inside memory, if it stood inside memory before.
    pub proof fn lemma_pointer_stays_in_memory(self, opcode: SVMOpCode)
        requires
            self.ip <= 32767,
            self.execute(opcode).1 is Ok,
        ensures
            self.execute(opcode).0.ip <= 32767,
    {
    }

    /// No instruction changes the number of registers or of memory cells.
    pub proof fn lemma_execute_keeps_wf(self, opcode: SVMOpCode)
        requires
            self.wf(),
        ensures
            self.execute(opcode).0.wf(),
    {
    }
}

} // verus!
