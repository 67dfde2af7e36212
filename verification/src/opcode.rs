//! The instructions: their numbers, and the code that carries each one out.
//!
//! What each instruction does is defined in [`crate::semantics`]; every
//! function here is proved to do exactly that.

use vstd::prelude::*;
use crate::extensions::RegisterValue;
use crate::svm_engine_state::{MachineState, SVMEngineState};
use crate::svm_constants::WORD_MODULUS;
use crate::svm_error::SVMError;

verus! {

/// The kinds of instruction, in the order of their numbers, 0 to 21. An
/// instruction is its number followed by its operands, `a`, `b` and `c`.
#[derive(Clone, Copy, Debug, PartialEq, Eq, Structural)]
pub enum SVMOpCode {
    /// 0: ends the run.
    Halt,
    /// 1 `a b`: register `a` receives the value of `b`.
    SetRegister,
    /// 2 `a`: the value of `a` goes on the stack.
    Push,
    /// 3 `a`: the top of the stack is removed and written to `a`.
    Pop,
    /// 4 `a b c`: `a` receives 1 if the values of `b` and `c` are equal,
    /// else 0.
    Eq,
    /// 5 `a b c`: `a` receives 1 if the value of `b` is greater than that of
    /// `c`, else 0.
    Gt,
    /// 6 `a`: jumps to the value of `a`.
    Jmp,
    /// 7 `a b`: jumps to `b` if the value of `a` is not zero.
    Jt,
    /// 8 `a b`: jumps to `b` if the value of `a` is zero.
    Jf,
    /// 9 `a b c`: register `a` receives the sum of the values of `b` and
    /// `c`, modulo 32768.
    Add,
    /// 10 `a b c`: register `a` receives the product of the values of `b`
    /// and `c`, modulo 32768.
    Mult,
    /// 11 `a b c`: register `a` receives the remainder of the value of `b`
    /// divided by that of `c`.
    Mod,
    /// 12 `a b c`: register `a` receives the bitwise and of the values of
    /// `b` and `c`.
    And,
    /// 13 `a b c`: register `a` receives the bitwise or of the values of `b`
    /// and `c`.
    Or,
    /// 14 `a b`: register `a` receives the bitwise complement of the value
    /// of `b`, within 15 bits.
    Not,
    /// 15 `a b`: register `a` receives the memory cell at the value of `b`.
    Rmem,
    /// 16 `a b`: the memory cell at the value of `a` receives the value of
    /// `b`.
    Wmem,
    /// 17 `a`: the instruction pointer goes on the stack, then jumps to the
    /// value of `a`.
    Call,
    /// 18: the top of the stack is removed and jumped to.
    Ret,
    /// 19 `a`: the low 8 bits of the value of `a` are written to the output.
    Out,
    /// 20 `a`: a byte is read from the input into register `a`.
    In,
    /// 21: nothing.
    NoOp,
}

/// What an instruction that ran without fault asks of whoever drives the
/// machine.
#[derive(Clone, Copy, Debug, PartialEq, Eq, Structural)]
pub enum Signal {
    /// Nothing: the next instruction can run.
    Continue,
    /// The program asked to stop.
    Halt,
    /// This byte is to be written to the output.
    Output(u8),
    /// A byte is to be read from the input for this destination.
    Input(u16),
}

/// The result of one instruction: a signal, or the fault that ended it.
pub type Outcome = Result<Signal, SVMError>;

/// A word seen as the number of an instruction.
pub trait OpcodeValue {
    /// The instruction that the word numbers, if it numbers one.
    spec fn spec_get_opcode(&self) -> Result<SVMOpCode, SVMError>;

    /// The instruction that the word numbers, or `InvalidOpCode` for a word
    /// that numbers none.
    fn get_opcode(&self) -> (opcode: Result<SVMOpCode, SVMError>)
        ensures
            opcode == self.spec_get_opcode(),
    ;
}

impl OpcodeValue for u16 {
    open spec fn spec_get_opcode(&self) -> Result<SVMOpCode, SVMError> {
        match *self {
            0 => Ok(SVMOpCode::Halt),
            1 => Ok(SVMOpCode::SetRegister),
            2 => Ok(SVMOpCode::Push),
            3 => Ok(SVMOpCode::Pop),
            4 => Ok(SVMOpCode::Eq),
            5 => Ok(SVMOpCode::Gt),
            6 => Ok(SVMOpCode::Jmp),
            7 => Ok(SVMOpCode::Jt),
            8 => Ok(SVMOpCode::Jf),
            9 => Ok(SVMOpCode::Add),
            10 => Ok(SVMOpCode::Mult),
            11 => Ok(SVMOpCode::Mod),
            12 => Ok(SVMOpCode::And),
            13 => Ok(SVMOpCode::Or),
            14 => Ok(SVMOpCode::Not),
            15 => Ok(SVMOpCode::Rmem),
            16 => Ok(SVMOpCode::Wmem),
            17 => Ok(SVMOpCode::Call),
            18 => Ok(SVMOpCode::Ret),
            19 => Ok(SVMOpCode::Out),
            20 => Ok(SVMOpCode::In),
            21 => Ok(SVMOpCode::NoOp),
            _ => Err(SVMError::InvalidOpCode),
        }
    }

    fn get_opcode(&self) -> (opcode: Result<SVMOpCode, SVMError>)
        ensures
            opcode is Ok <==> *self <= 21,
            opcode is Err ==> opcode == Err::<SVMOpCode, SVMError>(SVMError::InvalidOpCode),
    {
        match *self {
            0 => Ok(SVMOpCode::Halt),
            1 => Ok(SVMOpCode::SetRegister),
            2 => Ok(SVMOpCode::Push),
            3 => Ok(SVMOpCode::Pop),
            4 => Ok(SVMOpCode::Eq),
            5 => Ok(SVMOpCode::Gt),
            6 => Ok(SVMOpCode::Jmp),
            7 => Ok(SVMOpCode::Jt),
            8 => Ok(SVMOpCode::Jf),
            9 => Ok(SVMOpCode::Add),
            10 => Ok(SVMOpCode::Mult),
            11 => Ok(SVMOpCode::Mod),
            12 => Ok(SVMOpCode::And),
            13 => Ok(SVMOpCode::Or),
            14 => Ok(SVMOpCode::Not),
            15 => Ok(SVMOpCode::Rmem),
            16 => Ok(SVMOpCode::Wmem),
            17 => Ok(SVMOpCode::Call),
            18 => Ok(SVMOpCode::Ret),
            19 => Ok(SVMOpCode::Out),
            20 => Ok(SVMOpCode::In),
            21 => Ok(SVMOpCode::NoOp),
            _ => Err(SVMError::InvalidOpCode),
        }
    }
}

/// An instruction that can be carried out on the state of a machine.
pub trait OpCode {
    /// The state and the outcome that carrying out the instruction gives.
    spec fn spec_dispatch(&self, state: MachineState) -> (MachineState, Outcome);

    /// Carries out the instruction on `engine_state`, whose instruction
    /// pointer stands on the opcode word.
    fn dispatch(&self, engine_state: &mut SVMEngineState) -> (outcome: Outcome)
        requires
            old(engine_state)@.ip < u16::MAX,
        ensures
            (final(engine_state)@, outcome) == self.spec_dispatch(old(engine_state)@),
    ;
}

impl OpCode for SVMOpCode {
    open spec fn spec_dispatch(&self, state: MachineState) -> (MachineState, Outcome) {
        state.execute(*self)
    }

    fn dispatch(&self, engine_state: &mut SVMEngineState) -> (outcome: Outcome) {
        match *self {
            SVMOpCode::Halt => halt(engine_state),
            SVMOpCode::SetRegister => set(engine_state),
            SVMOpCode::Push => push(engine_state),
            SVMOpCode::Pop => pop(engine_state),
            SVMOpCode::Eq => eq(engine_state),
            SVMOpCode::Gt => gt(engine_state),
            SVMOpCode::Jmp => jmp(engine_state),
            SVMOpCode::Jt => jt(engine_state),
            SVMOpCode::Jf => jf(engine_state),
            SVMOpCode::Add => self::add(engine_state),
            SVMOpCode::Mult => mult(engine_state),
            SVMOpCode::Mod => modulus(engine_state),
            SVMOpCode::And => and(engine_state),
            SVMOpCode::Or => or(engine_state),
            SVMOpCode::Not => not(engine_state),
            SVMOpCode::Rmem => rmem(engine_state),
            SVMOpCode::Wmem => wmem(engine_state),
            SVMOpCode::Call => call(engine_state),
            SVMOpCode::Ret => ret(engine_state),
            SVMOpCode::Out => output(engine_state),
            SVMOpCode::In => input(engine_state),
            SVMOpCode::NoOp => noop(engine_state),
        }
    }
}

/// `Halt`: asks for the run to end.
pub fn halt(engine_state: &mut SVMEngineState) -> (outcome: Outcome)
    ensures
        (final(engine_state)@, outcome) == old(engine_state)@.execute(SVMOpCode::Halt),
{
    Ok(Signal::Halt)
}

/// `Set a b`: register `a` receives the value of `b`.
pub fn set(engine_state: &mut SVMEngineState) -> (outcome: Outcome)
    requires
        old(engine_state)@.ip < u16::MAX,
    ensures
        (final(engine_state)@, outcome) == old(engine_state)@.execute(SVMOpCode::SetRegister),
{
    let register = engine_state.instruction_pointer.get_next_memory_value(&engine_state.memory)?;
    let potential_register = engine_state.instruction_pointer.get_next_memory_value(&engine_state.memory)?;
    let value = potential_register.unwrap_potential_register(&engine_state.registers)?;
    engine_state.registers.set_register(register, value)?;
    Ok(Signal::Continue)
}

/// `Push a`: the value of `a` goes on the stack.
pub fn push(engine_state: &mut SVMEngineState) -> (outcome: Outcome)
    requires
        old(engine_state)@.ip < u16::MAX,
    ensures
        (final(engine_state)@, outcome) == old(engine_state)@.execute(SVMOpCode::Push),
{
    let potential_register = engine_state.instruction_pointer.get_next_memory_value(&engine_state.memory)?;
    let value = potential_register.unwrap_potential_register(&engine_state.registers)?;
    engine_state.stack.push(value);
    Ok(Signal::Continue)
}

/// `Pop a`: the top of the stack is removed and written to `a`, a register
/// or a memory cell.
pub fn pop(engine_state: &mut SVMEngineState) -> (outcome: Outcome)
    requires
        old(engine_state)@.ip < u16::MAX,
    ensures
        (final(engine_state)@, outcome) == old(engine_state)@.execute(SVMOpCode::Pop),
{
    let destination = engine_state.instruction_pointer.get_next_memory_value(&engine_state.memory)?;
    let value = match engine_state.stack.pop() {
        Some(x) => x,
        None => {
            return Err(SVMError::StackEmpty);
        },
    };

    set_register_or_memory(engine_state, destination, value)
}

/// `Eq a b c`: `a`, a register or a memory cell, receives 1 if the values of
/// `b` and `c` are equal, and else 0.
pub fn eq(engine_state: &mut SVMEngineState) -> (outcome: Outcome)
    requires
        old(engine_state)@.ip < u16::MAX,
    ensures
        (final(engine_state)@, outcome) == old(engine_state)@.execute(SVMOpCode::Eq),
{
    let destination = engine_state.instruction_pointer.get_next_memory_value(&engine_state.memory)?;

    let potential_left_register = engine_state.instruction_pointer.get_next_memory_value(&engine_state.memory)?;
    let left = potential_left_register.unwrap_potential_register(&engine_state.registers)?;

    let potential_right_register = engine_state.instruction_pointer.get_next_memory_value(&engine_state.memory)?;
    let right = potential_right_register.unwrap_potential_register(&engine_state.registers)?;

    let mut value: u16 = 0;
    if left == right {
        value = 1;
    }

    set_register_or_memory(engine_state, destination, value)
}

/// `Gt a b c`: `a`, a register or a memory cell, receives 1 if the value of
/// `b` is greater than that of `c`, and else 0.
pub fn gt(engine_state: &mut SVMEngineState) -> (outcome: Outcome)
    requires
        old(engine_state)@.ip < u16::MAX,
    ensures
        (final(engine_state)@, outcome) == old(engine_state)@.execute(SVMOpCode::Gt),
{
    let destination = engine_state.instruction_pointer.get_next_memory_value(&engine_state.memory)?;

    let potential_left_register = engine_state.instruction_pointer.get_next_memory_value(&engine_state.memory)?;
    let left = potential_left_register.unwrap_potential_register(&engine_state.registers)?;

    let potential_right_register = engine_state.instruction_pointer.get_next_memory_value(&engine_state.memory)?;
    let right = potential_right_register.unwrap_potential_register(&engine_state.registers)?;

    let mut value: u16 = 0;
    if left > right {
        value = 1;
    }

    set_register_or_memory(engine_state, destination, value)
}

/// `Jmp a`: the instruction pointer moves to the value of `a`.
pub fn jmp(engine_state: &mut SVMEngineState) -> (outcome: Outcome)
    requires
        old(engine_state)@.ip < u16::MAX,
    ensures
        (final(engine_state)@, outcome) == old(engine_state)@.execute(SVMOpCode::Jmp),
{
    let address = engine_state.instruction_pointer.get_next_memory_value(&engine_state.memory)?
        .unwrap_potential_register(&engine_state.registers)?;
    engine_state.instruction_pointer.set_ip(address)?;
    Ok(Signal::Continue)
}

/// `Jt a b`: if the value of `a` is not zero, the instruction pointer moves
/// to `b`.
pub fn jt(engine_state: &mut SVMEngineState) -> (outcome: Outcome)
    requires
        old(engine_state)@.ip < u16::MAX,
    ensures
        (final(engine_state)@, outcome) == old(engine_state)@.execute(SVMOpCode::Jt),
{
    let value = engine_state.instruction_pointer.get_next_memory_value(&engine_state.memory)?
        .unwrap_potential_register(&engine_state.registers)?;
    let address = engine_state.instruction_pointer.get_next_memory_value(&engine_state.memory)?;

    if value != 0 {
        engine_state.instruction_pointer.set_ip(address)?;
    }

    Ok(Signal::Continue)
}

/// `Jf a b`: if the value of `a` is zero, the instruction pointer moves to
/// `b`.
pub fn jf(engine_state: &mut SVMEngineState) -> (outcome: Outcome)
    requires
        old(engine_state)@.ip < u16::MAX,
    ensures
        (final(engine_state)@, outcome) == old(engine_state)@.execute(SVMOpCode::Jf),
{
    let value = engine_state.instruction_pointer.get_next_memory_value(&engine_state.memory)?
        .unwrap_potential_register(&engine_state.registers)?;
    let address = engine_state.instruction_pointer.get_next_memory_value(&engine_state.memory)?;

    if value == 0 {
        engine_state.instruction_pointer.set_ip(address)?;
    }

    Ok(Signal::Continue)
}

/// `Add a b c`: register `a` receives the sum of the values of `b` and `c`,
/// modulo 32768.
pub fn add(engine_state: &mut SVMEngineState) -> (outcome: Outcome)
    requires
        old(engine_state)@.ip < u16::MAX,
    ensures
        (final(engine_state)@, outcome) == old(engine_state)@.execute(SVMOpCode::Add),
{
    let destination = engine_state.instruction_pointer.get_next_memory_value(&engine_state.memory)?;

    let left = engine_state.instruction_pointer.get_next_memory_value(&engine_state.memory)?
        .unwrap_potential_register(&engine_state.registers)?;

    let right = engine_state.instruction_pointer.get_next_memory_value(&engine_state.memory)?
        .unwrap_potential_register(&engine_state.registers)?;

    let result = (left as u32 + right as u32) % WORD_MODULUS;

    engine_state.registers.set_register(destination, result as u16)?;

    Ok(Signal::Continue)
}

/// `Mult a b c`: register `a` receives the product of the values of `b` and
/// `c`, modulo 32768.
pub fn mult(engine_state: &mut SVMEngineState) -> (outcome: Outcome)
    requires
        old(engine_state)@.ip < u16::MAX,
    ensures
        (final(engine_state)@, outcome) == old(engine_state)@.execute(SVMOpCode::Mult),
{
    let destination = engine_state.instruction_pointer.get_next_memory_value(&engine_state.memory)?;

    let left = engine_state.instruction_pointer.get_next_memory_value(&engine_state.memory)?
        .unwrap_potential_register(&engine_state.registers)?;

    let right = engine_state.instruction_pointer.get_next_memory_value(&engine_state.memory)?
        .unwrap_potential_register(&engine_state.registers)?;

    assert(left as u32 * right as u32 <= 65535 * 65535) by (nonlinear_arith)
        requires
            left <= 65535,
            right <= 65535,
    ;
    let result = (left as u32 * right as u32) % WORD_MODULUS;
    engine_state.registers.set_register(destination, result as u16)?;

    Ok(Signal::Continue)
}

/// `Mod a b c`: register `a` receives the remainder of the value of `b`
/// divided by that of `c`. A divisor of zero is the fault `DivideByZero`.
pub fn modulus(engine_state: &mut SVMEngineState) -> (outcome: Outcome)
    requires
        old(engine_state)@.ip < u16::MAX,
    ensures
        (final(engine_state)@, outcome) == old(engine_state)@.execute(SVMOpCode::Mod),
{
    let destination = engine_state.instruction_pointer.get_next_memory_value(&engine_state.memory)?;

    let left = engine_state.instruction_pointer.get_next_memory_value(&engine_state.memory)?
        .unwrap_potential_register(&engine_state.registers)?;

    let right = engine_state.instruction_pointer.get_next_memory_value(&engine_state.memory)?
        .unwrap_potential_register(&engine_state.registers)?;

    if right == 0 {
        return Err(SVMError::DivideByZero);
    }
    let result = left % right;

    engine_state.registers.set_register(destination, result)?;

    Ok(Signal::Continue)
}

/// `And a b c`: register `a` receives the bitwise and of the values of `b`
/// and `c`.
pub fn and(engine_state: &mut SVMEngineState) -> (outcome: Outcome)
    requires
        old(engine_state)@.ip < u16::MAX,
    ensures
        (final(engine_state)@, outcome) == old(engine_state)@.execute(SVMOpCode::And),
{
    let destination = engine_state.instruction_pointer.get_next_memory_value(&engine_state.memory)?;

    let left = engine_state.instruction_pointer.get_next_memory_value(&engine_state.memory)?
        .unwrap_potential_register(&engine_state.registers)?;

    let right = engine_state.instruction_pointer.get_next_memory_value(&engine_state.memory)?
        .unwrap_potential_register(&engine_state.registers)?;

    let result = left & right;

    engine_state.registers.set_register(destination, result)?;

    Ok(Signal::Continue)
}

/// `Or a b c`: register `a` receives the bitwise or of the values of `b` and
/// `c`.
pub fn or(engine_state: &mut SVMEngineState) -> (outcome: Outcome)
    requires
        old(engine_state)@.ip < u16::MAX,
    ensures
        (final(engine_state)@, outcome) == old(engine_state)@.execute(SVMOpCode::Or),
{
    let destination = engine_state.instruction_pointer.get_next_memory_value(&engine_state.memory)?;

    let left = engine_state.instruction_pointer.get_next_memory_value(&engine_state.memory)?
        .unwrap_potential_register(&engine_state.registers)?;

    let right = engine_state.instruction_pointer.get_next_memory_value(&engine_state.memory)?
        .unwrap_potential_register(&engine_state.registers)?;

    let result = left | right;

    engine_state.registers.set_register(destination, result)?;

    Ok(Signal::Continue)
}

/// `Not a b`: register `a` receives the bitwise complement of the value of
/// `b`, within 15 bits.
pub fn not(engine_state: &mut SVMEngineState) -> (outcome: Outcome)
    requires
        old(engine_state)@.ip < u16::MAX,
    ensures
        (final(engine_state)@, outcome) == old(engine_state)@.execute(SVMOpCode::Not),
{
    let destination = engine_state.instruction_pointer.get_next_memory_value(&engine_state.memory)?;

    let value = engine_state.instruction_pointer.get_next_memory_value(&engine_state.memory)?
        .unwrap_potential_register(&engine_state.registers)?;

    let result = !value & 0x7FFF;

    engine_state.registers.set_register(destination, result)?;

    Ok(Signal::Continue)
}

/// `Rmem a b`: register `a` receives the memory cell at the address that is
/// the value of `b`.
pub fn rmem(engine_state: &mut SVMEngineState) -> (outcome: Outcome)
    requires
        old(engine_state)@.ip < u16::MAX,
    ensures
        (final(engine_state)@, outcome) == old(engine_state)@.execute(SVMOpCode::Rmem),
{
    let destination_reg = engine_state.instruction_pointer.get_next_memory_value(&engine_state.memory)?;
    let source_address = engine_state.instruction_pointer.get_next_memory_value(&engine_state.memory)?
        .unwrap_potential_register(&engine_state.registers)?;
    let value = engine_state.memory.load_memory(source_address)?;
    engine_state.registers.set_register(destination_reg, value)?;
    Ok(Signal::Continue)
}

/// `Wmem a b`: the memory cell at the address that is the value of `a`
/// receives the value of `b`.
pub fn wmem(engine_state: &mut SVMEngineState) -> (outcome: Outcome)
    requires
        old(engine_state)@.ip < u16::MAX,
    ensures
        (final(engine_state)@, outcome) == old(engine_state)@.execute(SVMOpCode::Wmem),
{
    let destination_address = engine_state.instruction_pointer.get_next_memory_value(&engine_state.memory)?
        .unwrap_potential_register(&engine_state.registers)?;
    let value = engine_state.instruction_pointer.get_next_memory_value(&engine_state.memory)?
        .unwrap_potential_register(&engine_state.registers)?;
    engine_state.memory.store_memory(destination_address, value)?;
    Ok(Signal::Continue)
}

/// `Call a`: the instruction pointer goes on the stack and then moves to the
/// value of `a`.
pub fn call(engine_state: &mut SVMEngineState) -> (outcome: Outcome)
    requires
        old(engine_state)@.ip < u16::MAX,
    ensures
        (final(engine_state)@, outcome) == old(engine_state)@.execute(SVMOpCode::Call),
{
    let jump_address = engine_state.instruction_pointer.get_next_memory_value(&engine_state.memory)?
        .unwrap_potential_register(&engine_state.registers)?;
    engine_state.stack.push(engine_state.instruction_pointer.get_ip());
    engine_state.instruction_pointer.set_ip(jump_address)?;
    Ok(Signal::Continue)
}

/// `Ret`: the top of the stack is removed and the instruction pointer moves
/// to it.
pub fn ret(engine_state: &mut SVMEngineState) -> (outcome: Outcome)
    ensures
        (final(engine_state)@, outcome) == old(engine_state)@.execute(SVMOpCode::Ret),
{
    let return_address = match engine_state.stack.pop() {
        Some(x) => Ok(x),
        None => Err(SVMError::StackEmpty),
    }?;

    engine_state.instruction_pointer.set_ip(return_address)?;

    Ok(Signal::Continue)
}

/// `Out a`: asks for the low 8 bits of the value of `a` to be written to the
/// output.
pub fn output(engine_state: &mut SVMEngineState) -> (outcome: Outcome)
    requires
        old(engine_state)@.ip < u16::MAX,
    ensures
        (final(engine_state)@, outcome) == old(engine_state)@.execute(SVMOpCode::Out),
{
    let out_char = engine_state.instruction_pointer.get_next_memory_value(&engine_state.memory)?
        .unwrap_potential_register(&engine_state.registers)?;
    Ok(Signal::Output((out_char % 256) as u8))
}

/// `In a`: asks for a byte to be read from the input for the destination
/// `a`.
pub fn input(engine_state: &mut SVMEngineState) -> (outcome: Outcome)
    requires
        old(engine_state)@.ip < u16::MAX,
    ensures
        (final(engine_state)@, outcome) == old(engine_state)@.execute(SVMOpCode::In),
{
    let destination = engine_state.instruction_pointer.get_next_memory_value(&engine_state.memory)?;
    Ok(Signal::Input(destination))
}

/// `NoOp`: nothing.
pub fn noop(engine_state: &mut SVMEngineState) -> (outcome: Outcome)
    ensures
        (final(engine_state)@, outcome) == old(engine_state)@.execute(SVMOpCode::NoOp),
{
    Ok(Signal::Continue)
}

/// Writes `value` to the register that `destination` encodes, or, where it
/// encodes none, to the memory cell at that address.
pub fn set_register_or_memory(engine_state: &mut SVMEngineState, destination: u16, value: u16) -> (outcome: Outcome)
    ensures
        (final(engine_state)@, outcome) == old(engine_state)@.write_through(destination, value),
{
    if destination.is_valid_register() {
        engine_state.registers.set_register(destination, value)?;
    } else {
        engine_state.memory.store_memory(destination, value)?;
    }
    Ok(Signal::Continue)
}

/// Ends an `In` instruction once its byte has been read: the register that
/// `destination` encodes receives `byte`.
pub fn deliver_input(engine_state: &mut SVMEngineState, destination: u16, byte: u8) -> (outcome: Outcome)
    ensures
        (final(engine_state)@, outcome) == old(engine_state)@.write_register(destination, byte as u16),
{
    engine_state.registers.set_register(destination, byte as u16)?;
    Ok(Signal::Continue)
}

} // verus!
