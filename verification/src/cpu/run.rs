//! Running a program image on its own, instruction after instruction.

use vstd::prelude::*;
use crate::cpu::{result_view, Cpu, CpuView, Fault, Outcome, OutcomeView};
use crate::machines::IO;

verus! {

/// How a run ended.
#[derive(Debug, PartialEq, Eq)]
pub enum RunEnd {
    /// The run got to its end: the program counter left the program image,
    /// or the cycles of the frame were spent.
    Completed,
    /// The program made the call that ends a diagnostic run, and this is
    /// the message it left.
    Exit(Vec<u8>),
    /// An instruction could not be executed.
    Fault(Fault),
    /// The run used up the number of instructions it was given.
    StepLimit,
}

/// The mathematical model of a [`RunEnd`].
pub enum RunEndView {
    Completed,
    Exit(Seq<u8>),
    Fault(Fault),
    StepLimit,
}

impl View for RunEnd {
    type V = RunEndView;

    open spec fn view(&self) -> RunEndView {
        match self {
            RunEnd::Completed => RunEndView::Completed,
            RunEnd::Exit(message) => RunEndView::Exit(message@),
            RunEnd::Fault(fault) => RunEndView::Fault(*fault),
            RunEnd::StepLimit => RunEndView::StepLimit,
        }
    }
}

impl CpuView {
    /// Whether the program counter is inside the program image.
    pub open spec fn in_program(self) -> bool {
        self.state.pc < self.program_size
    }
}

/// The processor after it has run one instruction for each of `replies`,
/// the device's answers in the order of the instructions. `None` where the
/// run does not get that far: where before one of the instructions the
/// program counter has left the program image, or where one of them faults
/// or ends the run.
pub open spec fn program_trace(c: CpuView, replies: Seq<Option<u8>>) -> Option<CpuView>
    decreases replies.len(),
{
    if replies.len() == 0 {
        Some(c)
    } else {
        match program_trace(c, replies.drop_last()) {
            Some(before) => {
                if before.in_program() && before.next_result(replies.last()) is Ok
                    && before.next_result(replies.last())->Ok_0 is Cycles {
                    Some(before.next_state(replies.last()))
                } else {
                    None
                }
            },
            None => None,
        }
    }
}

/// Whether a run from `start` that executed one instruction for each of
/// `replies`, and then met the reply `last` where it tried one more, ends in
/// `end` with the processor as `finish`.
///
/// The run ends as completed where the program counter has left the
/// program image, and at the step limit where `max_steps` instructions have
/// run and it has not. Before that, an instruction that faults ends the run
/// with the processor as it was, and the call that ends a diagnostic run
/// ends it with the message.
pub open spec fn run_ends(
    start: CpuView,
    replies: Seq<Option<u8>>,
    last: Option<u8>,
    max_steps: nat,
    end: RunEndView,
    finish: CpuView,
) -> bool {
    &&& replies.len() <= max_steps
    &&& program_trace(start, replies) matches Some(reached)
    &&& match end {
        RunEndView::Completed => finish == reached && !reached.in_program(),
        RunEndView::StepLimit => finish == reached && reached.in_program() && replies.len()
            == max_steps,
        RunEndView::Fault(fault) => {
            &&& finish == reached
            &&& reached.in_program()
            &&& replies.len() < max_steps
            &&& reached.next_result(last) == Err::<OutcomeView, Fault>(fault)
        },
        RunEndView::Exit(message) => {
            &&& reached.in_program()
            &&& replies.len() < max_steps
            &&& reached.next_result(last) == Ok::<OutcomeView, Fault>(OutcomeView::Exit(message))
            &&& finish == reached.next_state(last)
        },
    }
}

impl Cpu {
    /// Whether the program counter is inside the program image.
    pub fn in_program(&self) -> (r: bool)
        ensures
            r == self@.in_program(),
    {
        (self.state.pc as usize) < self.program_size
    }

    /// Runs the program against the device `io`, one instruction after the
    /// other, until the program counter leaves the program image, the
    /// program ends a diagnostic run, an instruction faults, or `max_steps`
    /// instructions have run.
    pub fn run<D: IO>(&mut self, io: &mut D, max_steps: u64) -> (end: RunEnd)
        requires
            old(self).wf(),
        ensures
            final(self).wf(),
            exists|replies: Seq<Option<u8>>, last: Option<u8>|
                run_ends(old(self)@, replies, last, max_steps as nat, end@, final(self)@),
    {
        let mut steps: u64 = 0;
        let ghost replies: Seq<Option<u8>> = Seq::empty();
        while steps < max_steps && self.in_program()
            invariant
                self.wf(),
                steps <= max_steps,
                replies.len() == steps,
                program_trace(old(self)@, replies) == Some(self@),
            decreases max_steps - steps,
        {
            let ghost before = self@;
            let result = self.execute_next_op(io);
            let ghost reply = choose|reply: Option<u8>|
                {
                    &&& self@ == #[trigger] before.next_state(reply)
                    &&& result_view(result) == before.next_result(reply)
                };
            match result {
                Ok(Outcome::Cycles(_)) => {
                    proof {
                        let longer = replies.push(reply);
                        assert(longer.drop_last() == replies);
                        assert(longer.last() == reply);
                        replies = longer;
                    }
                    steps = steps + 1;
                },
                Ok(Outcome::Exit(message)) => {
                    let end = RunEnd::Exit(message);
                    proof {
                        assert(run_ends(old(self)@, replies, reply, max_steps as nat, end@, self@));
                    }
                    return end;
                },
                Err(fault) => {
                    let end = RunEnd::Fault(fault);
                    proof {
                        assert(run_ends(old(self)@, replies, reply, max_steps as nat, end@, self@));
                    }
                    return end;
                },
            }
        }
        let end = if self.in_program() {
            RunEnd::StepLimit
        } else {
            RunEnd::Completed
        };
        proof {
            assert(run_ends(old(self)@, replies, None, max_steps as nat, end@, self@));
        }
        end
    }
}

} // verus!
