use svm::svm_engine::{Action, Diagnostic, Phase, SVMEngine, CARRIAGE_RETURN};
use svm::svm_engine_state::SVMEngineState;
use svm::svm_error::SVMError;
use svm::svm_program::SVMProgram;

/// An engine whose memory holds `words` from address 0 on.
fn engine_at_zero(words: &[u16]) -> SVMEngine {
    let mut bytes = Vec::new();
    for word in words {
        bytes.push((word & 0xFF) as u8);
        bytes.push((word >> 8) as u8);
    }
    SVMEngine::new(SVMProgram::new(&bytes))
}

/// An engine whose first fetch reads the first of `words`: the pointer
/// starts on address 0 and moves before it loads, so the words stand from
/// address 1 on.
fn engine(words: &[u16]) -> SVMEngine {
    let mut image = vec![0u16];
    image.extend_from_slice(words);
    engine_at_zero(&image)
}

/// Runs the engine to its end as a driver would: writes go to the returned
/// bytes, reads take the bytes of `input` and fail when it is used up.
fn drive(engine: &mut SVMEngine, input: &[u8]) -> (Vec<u8>, Action) {
    let mut written = Vec::new();
    let mut unread = input.iter();
    let mut action = engine.run(10_000);
    for _ in 0..10_000 {
        action = match action {
            Action::Continue => engine.run(10_000),
            Action::Write(byte) => {
                written.push(byte);
                engine.written(true)
            }
            Action::Read => engine.received(unread.next().copied()),
            Action::Halt | Action::Fault(_) => break,
        };
    }
    (written, action)
}

fn register(state: &SVMEngineState, index: u16) -> u16 {
    state.registers.get_register(32768 + index).unwrap()
}

#[test]
fn new_engine_is_running_on_a_blank_machine() {
    let engine = engine_at_zero(&[21, 19, 65]);
    assert_eq!(engine.phase(), Phase::Running);
    assert_eq!(engine.action(), Action::Continue);
    let state = engine.state();
    assert_eq!(state.instruction_pointer.get_ip(), 0);
    assert!(state.stack.is_empty());
    for index in 0..8 {
        assert_eq!(register(state, index), 0);
    }
    assert_eq!(state.memory.load_memory(0), Ok(21));
    assert_eq!(state.memory.load_memory(1), Ok(19));
    assert_eq!(state.memory.load_memory(2), Ok(65));
    assert_eq!(state.memory.load_memory(3), Ok(0));
}

#[test]
fn set_then_out_prints_five_and_halts() {
    let mut engine = engine(&[1, 32768, 5, 19, 32768, 0]);
    let (written, action) = drive(&mut engine, &[]);
    assert_eq!(written, vec![5]);
    assert_eq!(action, Action::Halt);
    assert_eq!(engine.phase(), Phase::Halted);
    assert_eq!(register(engine.state(), 0), 5);
}

#[test]
fn push_pop_out_prints_seven() {
    let mut engine = engine(&[2, 7, 3, 32768, 19, 32768, 0]);
    let (written, action) = drive(&mut engine, &[]);
    assert_eq!(written, vec![7]);
    assert_eq!(action, Action::Halt);
    assert_eq!(register(engine.state(), 0), 7);
    assert!(engine.state().stack.is_empty());
}

#[test]
fn halt_alone_halts_without_side_effect() {
    let mut engine = engine(&[0]);
    let (written, action) = drive(&mut engine, &[]);
    assert!(written.is_empty());
    assert_eq!(action, Action::Halt);
    let state = engine.state();
    assert_eq!(state.instruction_pointer.get_ip(), 1);
    assert!(state.stack.is_empty());
    for index in 0..8 {
        assert_eq!(register(state, index), 0);
    }
    for address in 0..=32767u16 {
        assert_eq!(state.memory.load_memory(address), Ok(0));
    }
}

#[test]
fn halt_at_address_zero_halts_too() {
    let mut engine = engine_at_zero(&[0]);
    let (written, action) = drive(&mut engine, &[]);
    assert!(written.is_empty());
    assert_eq!(action, Action::Halt);
}

#[test]
fn word_22_is_an_invalid_opcode() {
    let mut engine = engine(&[22]);
    let (written, action) = drive(&mut engine, &[]);
    assert!(written.is_empty());
    assert_eq!(action, Action::Fault(SVMError::InvalidOpCode));
    assert_eq!(engine.phase(), Phase::Faulted(SVMError::InvalidOpCode));
    assert_eq!(
        engine.diagnostic(SVMError::InvalidOpCode),
        Diagnostic { instruction: 1, opcode: 22, error: SVMError::InvalidOpCode }
    );
}

#[test]
fn add_wraps_around_in_a_run() {
    let mut engine = engine(&[9, 32768, 32767, 1]);
    let (_, action) = drive(&mut engine, &[]);
    assert_eq!(action, Action::Halt);
    assert_eq!(register(engine.state(), 0), 0);
}

#[test]
fn ret_as_first_instruction_is_stack_empty() {
    let mut engine = engine(&[18]);
    let (written, action) = drive(&mut engine, &[]);
    assert!(written.is_empty());
    assert_eq!(action, Action::Fault(SVMError::StackEmpty));
    assert_eq!(
        engine.diagnostic(SVMError::StackEmpty),
        Diagnostic { instruction: 1, opcode: 18, error: SVMError::StackEmpty }
    );
}

#[test]
fn the_word_at_address_zero_is_never_fetched() {
    let mut engine = engine_at_zero(&[1, 32768, 5, 19, 32768, 0]);
    assert_eq!(engine.step(), Action::Fault(SVMError::InvalidOpCode));
    assert_eq!(
        engine.diagnostic(SVMError::InvalidOpCode),
        Diagnostic { instruction: 1, opcode: 32768, error: SVMError::InvalidOpCode }
    );
    let mut engine = engine_at_zero(&[22]);
    assert_eq!(engine.step(), Action::Halt);
    let mut engine = engine_at_zero(&[18]);
    assert_eq!(engine.step(), Action::Halt);
}

#[test]
fn step_runs_one_instruction() {
    let mut engine = engine(&[1, 32768, 5, 19, 32768, 0]);
    assert_eq!(engine.step(), Action::Continue);
    assert_eq!(engine.state().instruction_pointer.get_ip(), 3);
    assert_eq!(register(engine.state(), 0), 5);
    assert_eq!(engine.step(), Action::Write(5));
    assert_eq!(engine.phase(), Phase::Writing(5));
    assert_eq!(engine.state().instruction_pointer.get_ip(), 5);
}

#[test]
fn step_waits_while_a_byte_is_to_be_written() {
    let mut engine = engine(&[19, 65, 19, 66, 0]);
    assert_eq!(engine.step(), Action::Write(65));
    assert_eq!(engine.step(), Action::Write(65));
    assert_eq!(engine.run(100), Action::Write(65));
    assert_eq!(engine.received(Some(1)), Action::Write(65));
    assert_eq!(engine.state().instruction_pointer.get_ip(), 2);
    assert_eq!(engine.written(true), Action::Continue);
    assert_eq!(engine.step(), Action::Write(66));
    assert_eq!(engine.written(true), Action::Continue);
    assert_eq!(engine.step(), Action::Halt);
}

#[test]
fn failed_write_is_write_error() {
    let mut engine = engine(&[19, 65, 0]);
    assert_eq!(engine.run(100), Action::Write(65));
    assert_eq!(engine.written(false), Action::Fault(SVMError::WriteError));
    assert_eq!(engine.phase(), Phase::Faulted(SVMError::WriteError));
    assert_eq!(
        engine.diagnostic(SVMError::WriteError),
        Diagnostic { instruction: 2, opcode: 65, error: SVMError::WriteError }
    );
}

#[test]
fn in_stores_the_byte_read() {
    let mut engine = engine(&[20, 32769, 19, 32769, 0]);
    assert_eq!(engine.run(100), Action::Read);
    assert_eq!(engine.phase(), Phase::Reading(32769));
    assert_eq!(engine.received(Some(b'a')), Action::Continue);
    assert_eq!(register(engine.state(), 1), 97);
    let (written, action) = drive(&mut engine, &[]);
    assert_eq!(written, vec![b'a']);
    assert_eq!(action, Action::Halt);
}

#[test]
fn in_echo_program_copies_input_to_output() {
    let mut engine = engine(&[20, 32768, 19, 32768, 20, 32768, 19, 32768, 0]);
    let (written, action) = drive(&mut engine, b"hi");
    assert_eq!(written, b"hi".to_vec());
    assert_eq!(action, Action::Halt);
}

#[test]
fn in_drops_one_byte_after_a_carriage_return() {
    assert_eq!(CARRIAGE_RETURN, 13);
    let mut engine = engine(&[20, 32768, 20, 32769, 0]);
    assert_eq!(engine.run(100), Action::Read);
    assert_eq!(engine.received(Some(13)), Action::Read);
    assert_eq!(engine.phase(), Phase::Skipping(32768));
    assert_eq!(register(engine.state(), 0), 0);
    assert_eq!(engine.received(Some(10)), Action::Continue);
    assert_eq!(register(engine.state(), 0), 13);
    assert_eq!(engine.run(100), Action::Read);
    assert_eq!(engine.received(Some(b'x')), Action::Continue);
    assert_eq!(register(engine.state(), 1), 120);
    assert_eq!(engine.run(100), Action::Halt);
}

#[test]
fn in_drops_even_a_second_carriage_return() {
    let mut engine = engine(&[20, 32768, 0]);
    let (_, action) = drive(&mut engine, &[13, 13]);
    assert_eq!(action, Action::Halt);
    assert_eq!(register(engine.state(), 0), 13);
}

#[test]
fn failed_read_is_read_error() {
    let mut engine = engine(&[20, 32768, 0]);
    assert_eq!(engine.run(100), Action::Read);
    assert_eq!(engine.received(None), Action::Fault(SVMError::ReadError));
    assert_eq!(register(engine.state(), 0), 0);
    assert_eq!(
        engine.diagnostic(SVMError::ReadError),
        Diagnostic { instruction: 2, opcode: 32768, error: SVMError::ReadError }
    );
}

#[test]
fn failed_read_after_a_carriage_return_is_read_error() {
    let mut engine = engine(&[20, 32768, 0]);
    let (_, action) = drive(&mut engine, &[13]);
    assert_eq!(action, Action::Fault(SVMError::ReadError));
    assert_eq!(register(engine.state(), 0), 0);
}

#[test]
fn in_needs_a_register_as_destination() {
    let mut engine = engine(&[20, 100, 0]);
    assert_eq!(engine.run(100), Action::Read);
    assert_eq!(engine.received(Some(b'a')), Action::Fault(SVMError::InvalidRegister));
    assert_eq!(engine.state().memory.load_memory(100), Ok(0));
}

#[test]
fn reports_are_ignored_where_none_is_awaited() {
    let mut engine = engine(&[21, 0]);
    assert_eq!(engine.written(false), Action::Continue);
    assert_eq!(engine.received(None), Action::Continue);
    assert_eq!(engine.received(Some(13)), Action::Continue);
    assert_eq!(engine.phase(), Phase::Running);
    assert_eq!(engine.state().instruction_pointer.get_ip(), 0);
    assert_eq!(engine.run(100), Action::Halt);
}

#[test]
fn an_ended_run_stays_ended() {
    let mut engine = engine(&[0, 19, 65]);
    assert_eq!(engine.run(100), Action::Halt);
    assert_eq!(engine.step(), Action::Halt);
    assert_eq!(engine.run(100), Action::Halt);
    assert_eq!(engine.written(true), Action::Halt);
    assert_eq!(engine.received(Some(1)), Action::Halt);
    assert_eq!(engine.state().instruction_pointer.get_ip(), 1);

    let mut engine = engine_at_zero(&[0, 18]);
    assert_eq!(engine.run(100), Action::Fault(SVMError::StackEmpty));
    assert_eq!(engine.step(), Action::Fault(SVMError::StackEmpty));
    assert_eq!(engine.written(true), Action::Fault(SVMError::StackEmpty));
    assert_eq!(engine.received(None), Action::Fault(SVMError::StackEmpty));
    assert_eq!(engine.state().instruction_pointer.get_ip(), 1);
}

#[test]
fn run_stops_when_its_budget_is_used_up() {
    let mut engine = engine(&[21, 21, 21, 21, 0]);
    assert_eq!(engine.run(0), Action::Continue);
    assert_eq!(engine.state().instruction_pointer.get_ip(), 0);
    assert_eq!(engine.run(3), Action::Continue);
    assert_eq!(engine.state().instruction_pointer.get_ip(), 3);
    assert_eq!(engine.run(1), Action::Continue);
    assert_eq!(engine.state().instruction_pointer.get_ip(), 4);
    assert_eq!(engine.run(1), Action::Halt);
    assert_eq!(engine.state().instruction_pointer.get_ip(), 5);
}

#[test]
fn run_stays_in_a_loop_for_its_whole_budget() {
    // `Jmp 0`: the next fetch reads address 1 again.
    let mut engine = engine(&[6, 0]);
    assert_eq!(engine.run(1000), Action::Continue);
    assert_eq!(engine.phase(), Phase::Running);
    assert_eq!(engine.state().instruction_pointer.get_ip(), 0);
}

#[test]
fn jump_lands_one_word_before_the_next_opcode() {
    // Address 1: Jmp 4. Address 3: Out 'A' (skipped). Address 5: Out 'B'.
    let mut engine = engine(&[6, 4, 19, 65, 19, 66, 0]);
    let (written, action) = drive(&mut engine, &[]);
    assert_eq!(written, vec![66]);
    assert_eq!(action, Action::Halt);
}

#[test]
fn call_and_ret_come_back_behind_the_call() {
    // Address 1: Call 5. Address 3: Out 'B'. Address 5: Halt. Address 6: Out 'A'. Address 8: Ret.
    let mut engine = engine(&[17, 5, 19, 66, 0, 19, 65, 18]);
    let (written, action) = drive(&mut engine, &[]);
    assert_eq!(written, vec![65, 66]);
    assert_eq!(action, Action::Halt);
    assert!(engine.state().stack.is_empty());
}

#[test]
fn countdown_loop_prints_three_letters() {
    // r0 = 3; loop: Out 'x'; r0 = r0 + 32767 (that is r0 - 1); Jt r0 loop; Halt.
    let mut engine = engine(&[1, 32768, 3, 19, 120, 9, 32768, 32768, 32767, 7, 32768, 3, 0]);
    let (written, action) = drive(&mut engine, &[]);
    assert_eq!(written, b"xxx".to_vec());
    assert_eq!(action, Action::Halt);
    assert_eq!(register(engine.state(), 0), 0);
}

#[test]
fn running_off_the_end_of_memory_is_invalid_memory() {
    let mut bytes = Vec::new();
    for _ in 0..32768 {
        bytes.push(21u8);
        bytes.push(0u8);
    }
    let mut engine = SVMEngine::new(SVMProgram::new(&bytes));
    assert_eq!(engine.run(32767), Action::Continue);
    assert_eq!(engine.state().instruction_pointer.get_ip(), 32767);
    assert_eq!(engine.run(1), Action::Fault(SVMError::InvalidMemory));
    assert_eq!(engine.state().instruction_pointer.get_ip(), 32768);
    assert_eq!(
        engine.diagnostic(SVMError::InvalidMemory),
        Diagnostic { instruction: 32768, opcode: 0, error: SVMError::InvalidMemory }
    );
}

#[test]
fn missing_operand_is_invalid_memory() {
    // Address 1: Jmp 32766. Address 32767: Add, whose operands lie beyond memory.
    let mut bytes = vec![0u8; 2 * 32768];
    bytes[2] = 6;
    bytes[4] = 0xFE;
    bytes[5] = 0x7F;
    bytes[2 * 32767] = 9;
    let mut engine = SVMEngine::new(SVMProgram::new(&bytes));
    assert_eq!(engine.step(), Action::Continue);
    assert_eq!(engine.state().instruction_pointer.get_ip(), 32766);
    assert_eq!(engine.step(), Action::Fault(SVMError::InvalidMemory));
    assert_eq!(engine.state().instruction_pointer.get_ip(), 32768);
    assert_eq!(
        engine.diagnostic(SVMError::InvalidMemory),
        Diagnostic { instruction: 32768, opcode: 0, error: SVMError::InvalidMemory }
    );
}

#[test]
fn every_fault_has_its_message() {
    assert_eq!(SVMError::InvalidMemory.message(), "Memory Error");
    assert_eq!(SVMError::InvalidOpCode.message(), "Invalid Opcode");
    assert_eq!(SVMError::InvalidRegister.message(), "Invalid Register");
    assert_eq!(SVMError::ReadError.message(), "Read error");
    assert_eq!(SVMError::StackEmpty.message(), "Stack error");
    assert_eq!(SVMError::WriteError.message(), "Write error");
    assert_eq!(SVMError::DivideByZero.message(), "Division by zero");
}

#[test]
fn modulus_by_zero_ends_the_run() {
    let mut engine = engine(&[11, 32768, 5, 0]);
    let (_, action) = drive(&mut engine, &[]);
    assert_eq!(action, Action::Fault(SVMError::DivideByZero));
    assert_eq!(
        engine.diagnostic(SVMError::DivideByZero),
        Diagnostic { instruction: 4, opcode: 0, error: SVMError::DivideByZero }
    );
}
