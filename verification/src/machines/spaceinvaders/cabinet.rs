//! The cabinet as a whole: the processor, its ports, the display and the
//! controls, driven one frame at a time.

use vstd::prelude::*;
use crate::cpu::decode::fetch;
use crate::cpu::laws::{cycles_are_bounded, step_keeps_memory_size};
use crate::cpu::run::{RunEnd, RunEndView};
use crate::cpu::{
    result_view, Cpu, CpuView, Fault, Op, Outcome, OutcomeView, PortAccess, MEMORY_SIZE,
};
use crate::machines::spaceinvaders::controls::pressed_all;
use crate::machines::spaceinvaders::ports::{Ports, SpaceInvadersIO};
use crate::machines::spaceinvaders::video::{draw_frame, frame_pixels};
use crate::machines::{Button, Controller, Machine, Player, Screen, Speaker, IO};

verus! {

/// The machine cycles of the first part of a frame, up to the interrupt in
/// the middle of the screen: half of the cycles of a whole frame.
pub const HALF_FRAME_CYCLES: u32 = 16_500;

/// The machine cycles of the second part of a frame, up to the interrupt at
/// the end of the screen.
pub const FRAME_CYCLES: u32 = 33_000;

/// The interrupt raised in the middle of a frame.
pub const MID_FRAME_INTERRUPT: u8 = 1;

/// The interrupt raised at the end of a frame.
pub const END_FRAME_INTERRUPT: u8 = 2;

/// The Space Invaders cabinet.
pub struct SpaceInvaders {
    io: SpaceInvadersIO,
    cpu: Cpu,
    screen: Box<dyn Screen>,
    controller: Box<dyn Controller>,
}

/// The mathematical model of the cabinet: the processor and the ports.
pub struct Cabinet {
    pub cpu: CpuView,
    pub ports: Ports,
}

impl Cabinet {
    /// The cabinet as it is switched on with the program `image`.
    pub open spec fn power_on(image: Seq<u8>) -> Cabinet {
        Cabinet { cpu: CpuView::loaded(image), ports: Ports::power_on() }
    }

    /// What the ports answer to `op`: to an `In` the byte read, to an `Out`
    /// that the port takes a write, and `None` where they have no such
    /// port. No other instruction asks them anything.
    pub open spec fn reply(self, op: Op) -> Option<u8> {
        match self.cpu.port_access(op) {
            PortAccess::Read(port) => self.ports.read(port),
            PortAccess::Write(port, _) => if Ports::writable(port) {
                Some(0u8)
            } else {
                None
            },
            PortAccess::Nothing => None,
        }
    }

    /// The ports after `op`: an `Out` has written the accumulator to its
    /// port, and no other instruction changes them.
    pub open spec fn ports_after(self, op: Op) -> Ports {
        match self.cpu.port_access(op) {
            PortAccess::Write(port, val) => self.ports.written(port, val),
            _ => self.ports,
        }
    }

    /// What the ports answer to the instruction at the program counter.
    pub open spec fn next_reply(self) -> Option<u8> {
        match fetch(self.cpu.state) {
            Ok(op) => self.reply(op),
            Err(_) => None,
        }
    }

    /// What executing the instruction at the program counter comes to.
    pub open spec fn step_result(self) -> Result<OutcomeView, Fault> {
        self.cpu.next_result(self.next_reply())
    }

    /// The cabinet after executing the instruction at the program counter:
    /// the processor has executed it with the answer of the ports, and an
    /// `Out` has written the accumulator to its port. After a fault the
    /// cabinet is as it was.
    pub open spec fn stepped(self) -> Cabinet {
        Cabinet {
            cpu: self.cpu.next_state(self.next_reply()),
            ports: match fetch(self.cpu.state) {
                Ok(op) => self.ports_after(op),
                Err(_) => self.ports,
            },
        }
    }

    /// The cabinet after it has run from `spent` machine cycles up to
    /// `budget` or beyond, and how that run ended. It executes instruction
    /// after instruction and adds up their cycles; a fault or the end of a
    /// diagnostic run ends it at once.
    pub open spec fn ran(self, budget: nat, spent: nat) -> (Cabinet, RunEndView)
        decreases budget + 18 - spent,
    {
        if spent >= budget {
            (self, RunEndView::Completed)
        } else {
            match self.step_result() {
                Ok(OutcomeView::Cycles(elapsed)) => {
                    proof {
                        if let Ok(op) = fetch(self.cpu.state) {
                            cycles_are_bounded(self.cpu.state, op);
                        }
                    }
                    self.stepped().ran(budget, spent + elapsed as nat)
                },
                Ok(OutcomeView::Exit(message)) => (self.stepped(), RunEndView::Exit(message)),
                Err(fault) => (self, RunEndView::Fault(fault)),
            }
        }
    }

    /// The cabinet with the interrupt `interrupt_num` raised.
    pub open spec fn interrupted(self, interrupt_num: u8) -> Cabinet {
        Cabinet { cpu: self.cpu.interrupted(interrupt_num), ..self }
    }

    /// The cabinet after the processor's part of a frame, and how the frame
    /// ended. The first part runs for [`HALF_FRAME_CYCLES`], then the
    /// mid-frame interrupt is raised; the second part runs for
    /// [`FRAME_CYCLES`], then the end-of-frame interrupt is raised. A fault
    /// or the end of a diagnostic run in either part ends the frame at once.
    pub open spec fn frame(self) -> (Cabinet, RunEndView) {
        let (first, first_end) = self.ran(HALF_FRAME_CYCLES as nat, 0);
        if first_end is Completed {
            let (second, second_end) = first.interrupted(MID_FRAME_INTERRUPT).ran(
                FRAME_CYCLES as nat,
                0,
            );
            if second_end is Completed {
                (second.interrupted(END_FRAME_INTERRUPT), RunEndView::Completed)
            } else {
                (second, second_end)
            }
        } else {
            (first, first_end)
        }
    }

    /// The cabinet with button events applied to input port 1, in order.
    pub open spec fn sampled(self, events: Seq<(Player, Button)>) -> Cabinet {
        Cabinet {
            ports: Ports { port1: pressed_all(self.ports.port1, events), ..self.ports },
            ..self
        }
    }
}

/// An instruction keeps memory at its size and the program at its length,
/// and takes at least four machine cycles where it runs.
pub proof fn stepped_keeps_shape(m: Cabinet)
    requires
        m.cpu.state.wf(),
    ensures
        m.stepped().cpu.state.wf(),
        m.stepped().cpu.program_size == m.cpu.program_size,
        m.step_result() matches Ok(OutcomeView::Cycles(elapsed)) ==> elapsed >= 4,
{
    if let Ok(op) = fetch(m.cpu.state) {
        cycles_are_bounded(m.cpu.state, op);
        step_keeps_memory_size(m.cpu.state, op, 0);
        if let Some(input) = m.next_reply() {
            step_keeps_memory_size(m.cpu.state, op, input);
        }
    }
}

/// A run under a cycle budget keeps memory at its size and the program at
/// its length, and never ends at a step limit.
pub proof fn ran_keeps_shape(m: Cabinet, budget: nat, spent: nat)
    requires
        m.cpu.state.wf(),
    ensures
        m.ran(budget, spent).0.cpu.state.wf(),
        m.ran(budget, spent).0.cpu.program_size == m.cpu.program_size,
        !(m.ran(budget, spent).1 is StepLimit),
    decreases budget + 18 - spent,
{
    stepped_keeps_shape(m);
    if spent < budget {
        match m.step_result() {
            Ok(OutcomeView::Cycles(elapsed)) => {
                ran_keeps_shape(m.stepped(), budget, spent + elapsed as nat);
            },
            _ => {},
        }
    }
}

/// A frame keeps memory at its size and the program at its length, and
/// never ends at a step limit.
pub proof fn frame_keeps_shape(m: Cabinet)
    requires
        m.cpu.state.wf(),
    ensures
        m.frame().0.cpu.state.wf(),
        m.frame().0.cpu.program_size == m.cpu.program_size,
        !(m.frame().1 is StepLimit),
{
    ran_keeps_shape(m, HALF_FRAME_CYCLES as nat, 0);
    let first = m.ran(HALF_FRAME_CYCLES as nat, 0).0;
    ran_keeps_shape(first.interrupted(MID_FRAME_INTERRUPT), FRAME_CYCLES as nat, 0);
}

impl View for SpaceInvaders {
    type V = Cabinet;

    closed spec fn view(&self) -> Cabinet {
        Cabinet { cpu: self.cpu@, ports: self.io@ }
    }
}

impl SpaceInvaders {
    /// A cabinet that was just switched on, with `bytes` as its program and
    /// the given speaker, screen and controls.
    pub fn new(
        bytes: Vec<u8>,
        speaker: Box<dyn Speaker>,
        screen: Box<dyn Screen>,
        controller: Box<dyn Controller>,
    ) -> (machine: SpaceInvaders)
        requires
            bytes.len() <= MEMORY_SIZE,
        ensures
            machine.wf(),
            machine@ == Cabinet::power_on(bytes@),
    {
        SpaceInvaders { io: SpaceInvadersIO::new(speaker), cpu: Cpu::new(bytes), screen, controller }
    }

    /// The processor.
    pub fn cpu(&self) -> (cpu: &Cpu)
        ensures
            cpu@ == self@.cpu,
            cpu.wf() == self.wf(),
    {
        &self.cpu
    }

    /// The ports.
    pub fn io(&self) -> (io: &SpaceInvadersIO)
        ensures
            io@ == self@.ports,
    {
        &self.io
    }

    /// Executes the instruction at the program counter against the ports.
    pub fn step(&mut self) -> (result: Result<Outcome, Fault>)
        requires
            old(self).wf(),
        ensures
            final(self).wf(),
            final(self)@ == old(self)@.stepped(),
            result_view(result) == old(self)@.step_result(),
    {
        match self.cpu.state.read_next_op() {
            Ok(op) => {
                let reply: Option<u8> = match self.cpu.port_access(&op) {
                    PortAccess::Read(port) => self.io.input(port),
                    PortAccess::Write(port, val) => {
                        if self.io.output(port, val) {
                            Some(0)
                        } else {
                            None
                        }
                    },
                    PortAccess::Nothing => None,
                };
                self.cpu.execute_with(&op, reply)
            },
            Err(opcode) => Err(Fault::DecodeFailure(opcode)),
        }
    }

    /// Runs the processor against the ports until the instructions executed
    /// have taken `budget` machine cycles or more. A fault or the end of a
    /// diagnostic run ends the run at once.
    pub fn run_cycles(&mut self, budget: u32) -> (end: RunEnd)
        requires
            old(self).wf(),
        ensures
            final(self).wf(),
            (final(self)@, end@) == old(self)@.ran(budget as nat, 0),
    {
        let mut spent: u64 = 0;
        while spent < budget as u64
            invariant
                self.wf(),
                spent < budget + 18,
                old(self)@.ran(budget as nat, 0) == self@.ran(budget as nat, spent as nat),
            decreases budget + 18 - spent,
        {
            proof {
                if let Ok(op) = fetch(self@.cpu.state) {
                    cycles_are_bounded(self@.cpu.state, op);
                }
            }
            match self.step() {
                Ok(Outcome::Cycles(elapsed)) => {
                    spent = spent + elapsed as u64;
                },
                Ok(Outcome::Exit(message)) => {
                    return RunEnd::Exit(message);
                },
                Err(fault) => {
                    return RunEnd::Fault(fault);
                },
            }
        }
        RunEnd::Completed
    }

    /// Raises an interrupt in the processor.
    pub fn interrupt(&mut self, interrupt_num: u8) -> (accepted: bool)
        requires
            old(self).wf(),
        ensures
            final(self).wf(),
            accepted == old(self)@.cpu.interrupts_enabled,
            final(self)@ == old(self)@.interrupted(interrupt_num),
    {
        self.cpu.interrupt(interrupt_num)
    }

    /// Runs the processor's part of a frame: the first part of the frame's
    /// cycles, the mid-frame interrupt, the second part and the
    /// end-of-frame interrupt.
    pub fn run_frame_cycles(&mut self) -> (end: RunEnd)
        requires
            old(self).wf(),
        ensures
            final(self).wf(),
            (final(self)@, end@) == old(self)@.frame(),
    {
        let first_end = self.run_cycles(HALF_FRAME_CYCLES);
        match first_end {
            RunEnd::Completed => {},
            _ => {
                return first_end;
            },
        }
        self.interrupt(MID_FRAME_INTERRUPT);
        let second_end = self.run_cycles(FRAME_CYCLES);
        match second_end {
            RunEnd::Completed => {},
            _ => {
                return second_end;
            },
        }
        self.interrupt(END_FRAME_INTERRUPT);
        RunEnd::Completed
    }
}

impl Machine for SpaceInvaders {
    /// The cabinet is well formed when its processor is.
    closed spec fn wf(&self) -> bool {
        self.cpu.wf()
    }

    /// Runs one frame: the processor's part of the frame, then the controls
    /// are sampled into input port 1 and the display is drawn from video
    /// memory. A fault or the end of a diagnostic run ends the frame at
    /// once, before anything is sampled or drawn.
    fn run_next_frame(&mut self) -> (end: RunEnd)
        ensures
            end@ == old(self)@.frame().1,
            !(end is Completed) ==> final(self)@ == old(self)@.frame().0,
            end is Completed ==> exists|events: Seq<(Player, Button)>|
                final(self)@ == #[trigger] old(self)@.frame().0.sampled(events),
    {
        let end = self.run_frame_cycles();
        match end {
            RunEnd::Completed => {},
            _ => {
                return end;
            },
        }
        let ghost before = self@;
        let events = self.controller.get_button_states();
        self.io.press_buttons(&events);
        let pixels = frame_pixels(&self.cpu.state);
        draw_frame(&mut self.screen, &pixels);
        proof {
            assert(before == old(self)@.frame().0);
            assert(self@ == old(self)@.frame().0.sampled(events@));
        }
        end
    }
}

} // verus!
