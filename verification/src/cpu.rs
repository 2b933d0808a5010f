//! The processor: state, decoder, execution engine, interrupts.

pub mod bits;
pub mod state;
pub mod op;
pub mod decode;
pub mod semantics;
pub mod execute;
pub mod laws;
pub mod label;
pub mod run;
pub mod debug;

use vstd::prelude::*;
use crate::machines::IO;
use decode::fetch;
use semantics::{cycles, diagnostic_message, is_diagnostic_call, step};

pub use bits::parity;
pub use op::Op;
pub use run::{RunEnd, RunEndView};
pub use state::{Flags, Register, State, StateView, MEMORY_SIZE};

verus! {

/// The processor: its state, the size of the program image it was loaded
/// with, and the latch that says whether interrupts are accepted.
pub struct Cpu {
    pub state: State,
    pub program_size: usize,
    pub interrupts_enabled: bool,
}

/// The mathematical model of a [`Cpu`].
pub struct CpuView {
    pub state: StateView,
    pub program_size: nat,
    pub interrupts_enabled: bool,
}

/// Why the processor could not execute the instruction at the program
/// counter. The processor is left as it was.
#[derive(Clone, Copy, Debug, PartialEq, Eq, Structural)]
pub enum Fault {
    /// The opcode byte names no instruction.
    DecodeFailure(u8),
    /// The device has no input port of this number.
    InputRefused(u8),
    /// The device has no output port of this number.
    OutputRefused(u8),
}

/// What an instruction asks of the device.
#[derive(Clone, Copy, Debug, PartialEq, Eq, Structural)]
pub enum PortAccess {
    /// Nothing: the instruction is neither an `In` nor an `Out`.
    Nothing,
    /// A read of this port.
    Read(u8),
    /// A write to this port of this byte.
    Write(u8, u8),
}

/// What executing one instruction came to.
#[derive(Debug, PartialEq, Eq)]
pub enum Outcome {
    /// The instruction ran and took this many machine cycles.
    Cycles(u8),
    /// The instruction was the call that ends a diagnostic run, and this is
    /// the message it left.
    Exit(Vec<u8>),
}

/// The mathematical model of an [`Outcome`].
pub enum OutcomeView {
    Cycles(u8),
    Exit(Seq<u8>),
}

impl View for Cpu {
    type V = CpuView;

    open spec fn view(&self) -> CpuView {
        CpuView {
            state: self.state@,
            program_size: self.program_size as nat,
            interrupts_enabled: self.interrupts_enabled,
        }
    }
}

impl View for Outcome {
    type V = OutcomeView;

    open spec fn view(&self) -> OutcomeView {
        match self {
            Outcome::Cycles(n) => OutcomeView::Cycles(*n),
            Outcome::Exit(message) => OutcomeView::Exit(message@),
        }
    }
}

/// The model of the result of an execution.
pub open spec fn result_view(result: Result<Outcome, Fault>) -> Result<OutcomeView, Fault> {
    match result {
        Ok(outcome) => Ok(outcome@),
        Err(fault) => Err(fault),
    }
}

impl CpuView {
    /// The processor that a program image is loaded into: the state that
    /// the image is loaded into, with interrupts disabled.
    pub open spec fn loaded(image: Seq<u8>) -> CpuView
        recommends
            image.len() <= MEMORY_SIZE,
    {
        CpuView {
            state: StateView::loaded(image),
            program_size: image.len(),
            interrupts_enabled: false,
        }
    }

    /// What `op` asks of the device: an `In` reads its port, an `Out` writes
    /// the accumulator to its port, and no other instruction asks anything.
    pub open spec fn port_access(self, op: Op) -> PortAccess {
        match op {
            Op::In(port) => PortAccess::Read(port),
            Op::Out(port) => PortAccess::Write(port, self.state.a),
            _ => PortAccess::Nothing,
        }
    }

    /// The processor after executing `op`, where `input` is the byte that
    /// the device gave to an `In`.
    pub open spec fn executed(self, op: Op, input: u8) -> CpuView {
        CpuView {
            state: step(self.state, op, input),
            interrupts_enabled: op.interrupts_after(self.interrupts_enabled),
            ..self
        }
    }

    /// What executing `op` comes to, where `reply` is what the device
    /// answered: `None` where it refused the port of an `In` or `Out`, else
    /// `Some` with, for an `In`, the byte read. The call that ends a
    /// diagnostic run gives the message that it left in memory; any other
    /// instruction gives its machine cycles.
    pub open spec fn execute_result(self, op: Op, reply: Option<u8>) -> Result<OutcomeView, Fault> {
        match op {
            Op::In(port) if reply is None => Err(Fault::InputRefused(port)),
            Op::Out(port) if reply is None => Err(Fault::OutputRefused(port)),
            _ => if is_diagnostic_call(self.state, op) {
                Ok(OutcomeView::Exit(diagnostic_message(self.state)))
            } else {
                Ok(OutcomeView::Cycles(cycles(self.state, op)))
            },
        }
    }

    /// The processor after executing `op` with the device's `reply`: where
    /// the device refused, the processor as it was.
    pub open spec fn execute_state(self, op: Op, reply: Option<u8>) -> CpuView {
        match reply {
            Some(input) => self.executed(op, input),
            None => if op is In || op is Out {
                self
            } else {
                self.executed(op, 0)
            },
        }
    }

    /// What executing the instruction at the program counter comes to,
    /// given the device's `reply`. An opcode that names no instruction is a
    /// fault.
    pub open spec fn next_result(self, reply: Option<u8>) -> Result<OutcomeView, Fault> {
        match fetch(self.state) {
            Ok(op) => self.execute_result(op, reply),
            Err(opcode) => Err(Fault::DecodeFailure(opcode)),
        }
    }

    /// The processor after executing the instruction at the program
    /// counter, given the device's `reply`: after a fault, the processor as
    /// it was.
    pub open spec fn next_state(self, reply: Option<u8>) -> CpuView {
        match fetch(self.state) {
            Ok(op) => self.execute_state(op, reply),
            Err(_) => self,
        }
    }

    /// The processor after the interrupt `interrupt_num` was raised: where
    /// interrupts are enabled the program counter is pushed as by a call and
    /// set to eight times the number; where they are not, nothing changes.
    pub open spec fn interrupted(self, interrupt_num: u8) -> CpuView {
        if self.interrupts_enabled {
            CpuView { state: self.state.called((8 * interrupt_num) as u16), ..self }
        } else {
            self
        }
    }
}

impl Cpu {
    /// A processor is well formed when its state is.
    pub open spec fn wf(&self) -> bool {
        self.state.wf()
    }

    /// A processor with the program image `bytes` at the bottom of an
    /// otherwise zeroed memory, every register and flag cleared and
    /// interrupts disabled.
    pub fn new(bytes: Vec<u8>) -> (cpu: Cpu)
        requires
            bytes.len() <= MEMORY_SIZE,
        ensures
            cpu.wf(),
            cpu@ == CpuView::loaded(bytes@),
    {
        let state = State::new(&bytes);
        Cpu { state, program_size: bytes.len(), interrupts_enabled: false }
    }

    /// What `op` asks of the device.
    pub fn port_access(&self, op: &Op) -> (access: PortAccess)
        ensures
            access == self@.port_access(*op),
    {
        match op {
            Op::In(port) => PortAccess::Read(*port),
            Op::Out(port) => PortAccess::Write(*port, self.state.a),
            _ => PortAccess::Nothing,
        }
    }

    /// Executes `op`, given what the device answered to it: `None` where it
    /// refused the port of an `In` or `Out`, else `Some` with, for an `In`,
    /// the byte read. Any other instruction ignores the reply.
    pub fn execute_with(&mut self, op: &Op, reply: Option<u8>) -> (result: Result<Outcome, Fault>)
        requires
            old(self).wf(),
            op.well_formed(),
        ensures
            final(self).wf(),
            final(self)@ == old(self)@.execute_state(*op, reply),
            result_view(result) == old(self)@.execute_result(*op, reply),
    {
        let input: u8 = match reply {
            Some(byte) => byte,
            None => {
                match op {
                    Op::In(port) => {
                        return Err(Fault::InputRefused(*port));
                    },
                    Op::Out(port) => {
                        return Err(Fault::OutputRefused(*port));
                    },
                    _ => 0,
                }
            },
        };
        if self.state.at_diagnostic_call(op) {
            let message = self.state.diagnostic_message();
            self.state.apply(op, input);
            Ok(Outcome::Exit(message))
        } else {
            let elapsed = self.state.apply(op, input);
            match op {
                Op::Ei => {
                    self.interrupts_enabled = true;
                },
                Op::Di => {
                    self.interrupts_enabled = false;
                },
                _ => {},
            }
            Ok(Outcome::Cycles(elapsed))
        }
    }

    /// Executes `op` against the device `io`. The device is asked what
    /// [`Cpu::port_access`] says, before the instruction runs; where it
    /// refuses the port, the processor stays as it was.
    pub fn execute_op<D: IO>(&mut self, op: &Op, io: &mut D) -> (result: Result<Outcome, Fault>)
        requires
            old(self).wf(),
            op.well_formed(),
        ensures
            final(self).wf(),
            exists|reply: Option<u8>|
                {
                    &&& final(self)@ == #[trigger] old(self)@.execute_state(*op, reply)
                    &&& result_view(result) == old(self)@.execute_result(*op, reply)
                },
            !(op is In) && !(op is Out) ==> {
                &&& final(self)@ == old(self)@.executed(*op, 0)
                &&& result_view(result) == old(self)@.execute_result(*op, None)
                &&& result is Ok
            },
            !(op is Out) ==> *final(io) == *old(io),
    {
        let reply: Option<u8> = match self.port_access(op) {
            PortAccess::Read(port) => io.input(port),
            PortAccess::Write(port, val) => {
                if io.output(port, val) {
                    Some(0)
                } else {
                    None
                }
            },
            PortAccess::Nothing => None,
        };
        let result = self.execute_with(op, reply);
        proof {
            assert(self@ == old(self)@.execute_state(*op, reply));
        }
        result
    }

    /// Decodes the instruction at the program counter and executes it
    /// against the device `io`. An opcode that names no instruction is a
    /// fault, and the processor then stays as it was.
    pub fn execute_next_op<D: IO>(&mut self, io: &mut D) -> (result: Result<Outcome, Fault>)
        requires
            old(self).wf(),
        ensures
            final(self).wf(),
            exists|reply: Option<u8>|
                {
                    &&& final(self)@ == #[trigger] old(self)@.next_state(reply)
                    &&& result_view(result) == old(self)@.next_result(reply)
                },
            fetch(old(self)@.state) matches Err(opcode) ==> result == Err::<Outcome, Fault>(
                Fault::DecodeFailure(opcode),
            ),
            fetch(old(self)@.state) matches Ok(op) ==> (!(op is In) && !(op is Out) ==> {
                &&& final(self)@ == old(self)@.executed(op, 0)
                &&& result_view(result) == old(self)@.next_result(None)
                &&& result is Ok
            }),
            !(fetch(old(self)@.state) matches Ok(Op::Out(_))) ==> *final(io) == *old(io),
    {
        match self.state.read_next_op() {
            Ok(op) => {
                let ghost before = self@;
                let result = self.execute_op(&op, io);
                proof {
                    let reply = choose|reply: Option<u8>|
                        {
                            &&& self@ == #[trigger] before.execute_state(op, reply)
                            &&& result_view(result) == before.execute_result(op, reply)
                        };
                    assert(self@ == before.next_state(reply));
                }
                result
            },
            Err(opcode) => {
                proof {
                    assert(self@ == self@.next_state(None));
                }
                Err(Fault::DecodeFailure(opcode))
            },
        }
    }

    /// Raises the interrupt `interrupt_num`. Where interrupts are enabled,
    /// the program counter is pushed as by a call and set to eight times the
    /// number, and the interrupt is accepted; interrupts stay enabled.
    /// Where they are disabled nothing changes and the interrupt is not
    /// accepted.
    pub fn interrupt(&mut self, interrupt_num: u8) -> (accepted: bool)
        requires
            old(self).wf(),
        ensures
            final(self).wf(),
            accepted == old(self)@.interrupts_enabled,
            final(self)@ == old(self)@.interrupted(interrupt_num),
            !accepted ==> final(self)@ == old(self)@,
    {
        if self.interrupts_enabled {
            let vector: u16 = interrupt_num as u16 * 8;
            self.state.call(vector);
            true
        } else {
            false
        }
    }
}

} // verus!
