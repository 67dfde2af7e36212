//! The engine: a machine and the phase of its run.
//!
//! The engine never touches the outside world. It runs instructions until one
//! of them needs a byte written or read, or ends the run, and says so in an
//! [`Action`]. Whoever drives the engine performs the action and reports back
//! with [`SVMEngine::written`] or [`SVMEngine::received`].

use vstd::prelude::*;
use crate::memory::Memory;
use crate::opcode::{deliver_input, OpCode, OpcodeValue, Outcome, Signal};
use crate::svm_engine_state::{MachineState, SVMEngineState};
use crate::svm_error::SVMError;
use crate::svm_program::SVMProgram;

verus! {

/// Where a run stands.
#[derive(Clone, Copy, Debug, PartialEq, Eq, Structural)]
pub enum Phase {
    /// The next instruction can run.
    Running,
    /// An `Out` instruction waits for this byte to be written.
    Writing(u8),
    /// An `In` instruction waits for a byte for this destination.
    Reading(u16),
    /// An `In` instruction has read a carriage return for this destination
    /// and waits for one more byte, which it drops.
    Skipping(u16),
    /// The program has halted.
    Halted,
    /// The run has ended in this fault.
    Faulted(SVMError),
}

/// What the engine asks of its driver.
#[derive(Clone, Copy, Debug, PartialEq, Eq, Structural)]
pub enum Action {
    /// Nothing: the run can go on.
    Continue,
    /// Write this byte to the output, then call [`SVMEngine::written`].
    Write(u8),
    /// Read one byte from the input, then call [`SVMEngine::received`].
    Read,
    /// The program has halted: end with success.
    Halt,
    /// The run has ended in this fault: end with failure.
    Fault(SVMError),
}

/// What is reported of a fault: where the instruction pointer stands, the
/// word at that address, or 0 where the pointer stands beyond memory, and the
/// fault.
#[derive(Clone, Copy, Debug, PartialEq, Eq, Structural)]
pub struct Diagnostic {
    pub instruction: u16,
    pub opcode: u16,
    pub error: SVMError,
}

/// The carriage return, the byte after which `In` drops one more byte.
pub const CARRIAGE_RETURN: u8 = 13;

impl Phase {
    /// Whether the run has not ended.
    pub open spec fn live(self) -> bool {
        !(self is Halted) && !(self is Faulted)
    }

    /// What the engine asks of its driver in this phase.
    pub open spec fn action(self) -> Action {
        match self {
            Phase::Running => Action::Continue,
            Phase::Writing(byte) => Action::Write(byte),
            Phase::Reading(_) => Action::Read,
            Phase::Skipping(_) => Action::Read,
            Phase::Halted => Action::Halt,
            Phase::Faulted(fault) => Action::Fault(fault),
        }
    }

    /// The phase that follows an instruction with this outcome.
    pub open spec fn after(outcome: Outcome) -> Phase {
        match outcome {
            Ok(Signal::Continue) => Phase::Running,
            Ok(Signal::Halt) => Phase::Halted,
            Ok(Signal::Output(byte)) => Phase::Writing(byte),
            Ok(Signal::Input(destination)) => Phase::Reading(destination),
            Err(fault) => Phase::Faulted(fault),
        }
    }
}

/// The engine as mathematics: the state of its machine and the phase of its
/// run.
pub struct EngineModel {
    pub machine: MachineState,
    pub phase: Phase,
}

impl EngineModel {
    /// While the run has not ended, the instruction pointer stands inside
    /// memory.
    pub open spec fn wf(self) -> bool {
        &&& self.machine.wf()
        &&& self.phase.live() ==> self.machine.ip <= 32767
    }

    /// The engine at the start of a run of the program with this image. The
    /// pointer stands on address 0 and moves before each fetch: the first
    /// opcode of the run is the word at address 1.
    pub open spec fn initial(image: Seq<u16>) -> EngineModel {
        EngineModel {
            machine: MachineState {
                ip: 0,
                registers: Seq::new(8, |i: int| 0u16),
                memory: image,
                stack: Seq::empty(),
            },
            phase: Phase::Running,
        }
    }

    /// One instruction: the next word is fetched, decoded and carried out.
    /// In any phase but `Running` nothing happens.
    pub open spec fn step(self) -> EngineModel {
        if self.phase is Running {
            if self.machine.can_fetch(1) {
                let fetched = self.machine.advance(1);
                match self.machine.operand(1).spec_get_opcode() {
                    Ok(opcode) => {
                        let (machine, outcome) = opcode.spec_dispatch(fetched);
                        EngineModel { machine, phase: Phase::after(outcome) }
                    },
                    Err(fault) => EngineModel { machine: fetched, phase: Phase::Faulted(fault) },
                }
            } else {
                EngineModel {
                    machine: self.machine.run_off(),
                    phase: Phase::Faulted(SVMError::InvalidMemory),
                }
            }
        } else {
            self
        }
    }

    /// The driver reports on the byte of an `Out`: written, and the run goes
    /// on, or not, and the run ends in the fault `WriteError`. In any phase
    /// but `Writing` nothing happens.
    pub open spec fn written(self, success: bool) -> EngineModel {
        if self.phase is Writing {
            EngineModel {
                phase: if success { Phase::Running } else { Phase::Faulted(SVMError::WriteError) },
                ..self
            }
        } else {
            self
        }
    }

    /// The register that `destination` encodes receives `byte`, which ends
    /// the `In` instruction.
    pub open spec fn deliver(self, destination: u16, byte: u8) -> EngineModel {
        let (machine, outcome) = self.machine.write_register(destination, byte as u16);
        EngineModel { machine, phase: Phase::after(outcome) }
    }

    /// The driver reports on the byte that an `In` waits for: `Some` byte,
    /// or `None` where the input failed, which ends the run in the fault
    /// `ReadError`. A first byte that is a carriage return makes the engine
    /// ask for one more byte; when that one arrives it is dropped, and the
    /// carriage return is delivered. Any other first byte is delivered at
    /// once. In any phase but `Reading` and `Skipping` nothing happens.
    pub open spec fn received(self, byte: Option<u8>) -> EngineModel {
        match self.phase {
            Phase::Reading(destination) => match byte {
                Some(first) => if first == CARRIAGE_RETURN {
                    EngineModel { phase: Phase::Skipping(destination), ..self }
                } else {
                    self.deliver(destination, first)
                },
                None => EngineModel { phase: Phase::Faulted(SVMError::ReadError), ..self },
            },
            Phase::Skipping(destination) => match byte {
                Some(_) => self.deliver(destination, CARRIAGE_RETURN),
                None => EngineModel { phase: Phase::Faulted(SVMError::ReadError), ..self },
            },
            _ => self,
        }
    }

    /// Up to `budget` instructions, one after the other for as long as the
    /// phase is `Running`.
    pub open spec fn run(self, budget: nat) -> EngineModel
        decreases budget,
    {
        if budget == 0 || !(self.phase is Running) {
            self
        } else {
            self.step().run((budget - 1) as nat)
        }
    }

    /// What is reported of the fault `error` in this state.
    pub open spec fn diagnostic(self, error: SVMError) -> Diagnostic {
        Diagnostic {
            instruction: self.machine.ip,
            opcode: match Memory::spec_load(self.machine.memory, self.machine.ip) {
                Ok(word) => word,
                Err(_) => 0u16,
            },
            error,
        }
    }
}

impl EngineModel {
    /// A run that has ended stays as it is, whatever is asked of the engine.
    pub proof fn lemma_ended_run_is_final(self, success: bool, byte: Option<u8>, budget: nat)
        requires
            !self.phase.live(),
        ensures
            self.step() == self,
            self.written(success) == self,
            self.received(byte) == self,
            self.run(budget) == self,
    {
    }

    /// Every move of the engine keeps its invariant.
    pub proof fn lemma_moves_keep_wf(self, success: bool, byte: Option<u8>, budget: nat)
        requires
            self.wf(),
        ensures
            self.step().wf(),
            self.written(success).wf(),
            self.received(byte).wf(),
            self.run(budget).wf(),
        decreases budget,
    {
        if budget > 0 && self.phase is Running {
            self.step().lemma_moves_keep_wf(success, byte, (budget - 1) as nat);
        }
    }

    /// A run of `first + second` instructions is a run of `first` followed
    /// by a run of `second`.
    pub proof fn lemma_run_in_parts(self, first: nat, second: nat)
        ensures
            self.run(first + second) == self.run(first).run(second),
        decreases first,
    {
        if first == 0 || !(self.phase is Running) {
            if !(self.phase is Running) {
                assert(self.run(second) == self);
            }
        } else {
            self.step().lemma_run_in_parts((first - 1) as nat, second);
        }
    }
}

/// A machine and the phase of its run. Its view is an [`EngineModel`].
pub struct SVMEngine {
    engine_state: SVMEngineState,
    phase: Phase,
}

impl View for SVMEngine {
    type V = EngineModel;

    closed spec fn view(&self) -> EngineModel {
        EngineModel { machine: self.engine_state@, phase: self.phase }
    }
}

impl SVMEngine {
    /// The invariant of the engine: [`EngineModel::wf`] of its view. `new`
    /// establishes it and every method keeps it.
    pub open spec fn wf(&self) -> bool {
        self@.wf()
    }

    /// An engine at the start of a run of `program`.
    pub fn new(program: SVMProgram) -> (engine: SVMEngine)
        ensures
            engine.wf(),
            engine@ == EngineModel::initial(program@),
    {
        let engine = SVMEngine {
            engine_state: SVMEngineState::new(program.get_bytecode()),
            phase: Phase::Running,
        };
        proof {
            engine.engine_state.lemma_wf();
        }
        engine
    }

    /// What the engine asks of its driver now.
    pub fn action(&self) -> (action: Action)
        ensures
            action == self@.phase.action(),
    {
        match self.phase {
            Phase::Running => Action::Continue,
            Phase::Writing(byte) => Action::Write(byte),
            Phase::Reading(_) => Action::Read,
            Phase::Skipping(_) => Action::Read,
            Phase::Halted => Action::Halt,
            Phase::Faulted(fault) => Action::Fault(fault),
        }
    }

    /// Carries out one instruction, if the run is in the phase `Running`.
    pub fn step(&mut self) -> (action: Action)
        requires
            old(self).wf(),
        ensures
            final(self).wf(),
            final(self)@ == old(self)@.step(),
            action == final(self)@.phase.action(),
    {
        proof {
            self.engine_state.lemma_wf();
        }
        if let Phase::Running = self.phase {
            let opcode_number = self.engine_state.instruction_pointer.get_next_memory_value(
                &self.engine_state.memory,
            );
            self.phase = match opcode_number {
                Ok(opcode_value) => match opcode_value.get_opcode() {
                    Ok(opcode) => Self::phase_after(opcode.dispatch(&mut self.engine_state)),
                    Err(error) => Phase::Faulted(error),
                },
                Err(error) => Phase::Faulted(error),
            };
        }
        proof {
            self.engine_state.lemma_wf();
        }
        self.action()
    }

    /// Carries out up to `budget` instructions, one after the other for as
    /// long as none of them asks anything of the driver or ends the run.
    pub fn run(&mut self, budget: usize) -> (action: Action)
        requires
            old(self).wf(),
        ensures
            final(self).wf(),
            final(self)@ == old(self)@.run(budget as nat),
            action == final(self)@.phase.action(),
    {
        let mut remaining = budget;
        while remaining > 0 && self.phase == Phase::Running
            invariant
                self.wf(),
                old(self)@.run(budget as nat) == self@.run(remaining as nat),
            decreases remaining,
        {
            self.step();
            remaining -= 1;
        }
        self.action()
    }

    /// Takes the driver's report on the byte of an `Out`.
    pub fn written(&mut self, success: bool) -> (action: Action)
        requires
            old(self).wf(),
        ensures
            final(self).wf(),
            final(self)@ == old(self)@.written(success),
            action == final(self)@.phase.action(),
    {
        if let Phase::Writing(_) = self.phase {
            self.phase = if success {
                Phase::Running
            } else {
                Phase::Faulted(SVMError::WriteError)
            };
        }
        self.action()
    }

    /// Takes the byte that an `In` waits for, or `None` where the input
    /// failed.
    pub fn received(&mut self, byte: Option<u8>) -> (action: Action)
        requires
            old(self).wf(),
        ensures
            final(self).wf(),
            final(self)@ == old(self)@.received(byte),
            action == final(self)@.phase.action(),
    {
        proof {
            self.engine_state.lemma_wf();
        }
        match self.phase {
            Phase::Reading(destination) => {
                self.phase = match byte {
                    Some(first) => if first == CARRIAGE_RETURN {
                        Phase::Skipping(destination)
                    } else {
                        Self::phase_after(deliver_input(&mut self.engine_state, destination, first))
                    },
                    None => Phase::Faulted(SVMError::ReadError),
                };
            },
            Phase::Skipping(destination) => {
                self.phase = match byte {
                    Some(_) => Self::phase_after(
                        deliver_input(&mut self.engine_state, destination, CARRIAGE_RETURN),
                    ),
                    None => Phase::Faulted(SVMError::ReadError),
                };
            },
            _ => {},
        }
        proof {
            self.engine_state.lemma_wf();
        }
        self.action()
    }

    /// What is to be reported of the fault `error`: where the instruction
    /// pointer stands and the word at that address, or 0 where it stands
    /// beyond memory.
    pub fn diagnostic(&self, error: SVMError) -> (report: Diagnostic)
        ensures
            report == self@.diagnostic(error),
    {
        let ip = self.engine_state.instruction_pointer.get_ip();
        let opcode = match self.engine_state.memory.load_memory(ip) {
            Ok(x) => x,
            _ => 0,
        };
        Diagnostic { instruction: ip, opcode, error }
    }

    /// The machine.
    pub fn state(&self) -> (state: &SVMEngineState)
        ensures
            state@ == self@.machine,
    {
        &self.engine_state
    }

    /// The phase of the run.
    pub fn phase(&self) -> (phase: Phase)
        ensures
            phase == self@.phase,
    {
        self.phase
    }

    fn phase_after(outcome: Outcome) -> (phase: Phase)
        ensures
            phase == Phase::after(outcome),
    {
        match outcome {
            Ok(Signal::Continue) => Phase::Running,
            Ok(Signal::Halt) => Phase::Halted,
            Ok(Signal::Output(byte)) => Phase::Writing(byte),
            Ok(Signal::Input(destination)) => Phase::Reading(destination),
            Err(fault) => Phase::Faulted(fault),
        }
    }
}

} // verus!
