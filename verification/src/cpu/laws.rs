//! Laws of the instruction set, proved from the model.

use vstd::prelude::*;
use crate::cpu::bits::{count_ones, even_parity, high_byte, low_byte, word, wrap16};
use crate::cpu::op::Op;
use crate::cpu::semantics::{
    cycles, diagnostic_message, is_diagnostic_call, message_end, message_start, step,
    DIAGNOSTIC_SENTINEL,
};
use crate::cpu::state::{Flags, Register, StateView};
use crate::cpu::CpuView;

verus! {

/// No instruction changes the size of memory: a well-formed state stays
/// well formed.
#[verifier::rlimit(40)]
pub proof fn step_keeps_memory_size(s: StateView, op: Op, input: u8)
    requires
        s.wf(),
    ensures
        step(s, op, input).wf(),
{
}

/// The two bytes of a push lie at different addresses, and the addresses
/// that a pop reads are the ones that the push wrote.
proof fn stack_addresses(sp: u16)
    ensures
        wrap16(wrap16(sp - 2) + 1) == wrap16(sp - 1),
        wrap16(wrap16(sp - 2) + 2) == sp,
        wrap16(sp - 1) != wrap16(sp - 2),
{
}

/// Every instruction takes at least 4 and at most 18 machine cycles.
pub proof fn cycles_are_bounded(s: StateView, op: Op)
    ensures
        4 <= cycles(s, op) <= 18,
{
}

/// What was pushed is on top of the stack, and dropping it restores the
/// stack pointer; no register changes.
pub proof fn pushed_is_on_top(s: StateView, high: u8, low: u8)
    requires
        s.wf(),
    ensures
        ({
            let p = s.pushed(high, low);
            &&& p.wf()
            &&& p.sp == wrap16(s.sp - 2)
            &&& p.load(p.sp) == low
            &&& p.load(wrap16(p.sp + 1)) == high
            &&& p.stack_top() == word(high, low)
            &&& p.popped().sp == s.sp
            &&& p.a == s.a && p.b == s.b && p.c == s.c && p.d == s.d && p.e == s.e && p.h == s.h
                && p.l == s.l
            &&& p.flags == s.flags
            &&& p.pc == s.pc
        }),
{
    stack_addresses(s.sp);
}

/// A push followed by a pop of the same register pair restores the pair
/// and leaves the stack pointer where it was before the push.
pub proof fn push_then_pop_restores(s: StateView, high: Register, low: Register)
    requires
        s.wf(),
        !high.is_pair(),
        !low.is_pair(),
    ensures
        ({
            let pushed = step(s, Op::Push(high, low), 0);
            let popped = step(pushed, Op::Pop(high, low), 0);
            &&& popped.reg(high) == s.reg(high)
            &&& popped.reg(low) == s.reg(low)
            &&& word(popped.reg(high), popped.reg(low)) == word(s.reg(high), s.reg(low))
            &&& popped.sp == s.sp
            &&& pushed.sp == wrap16(s.sp - 2)
        }),
{
    let t = s.advanced(1);
    pushed_is_on_top(t, t.reg(high), t.reg(low));
    let pushed = step(s, Op::Push(high, low), 0);
    assert(pushed == t.pushed(t.reg(high), t.reg(low)));
    let u = pushed.advanced(1);
    assert(u.load(u.sp) == s.reg(low));
    assert(u.load(wrap16(u.sp + 1)) == s.reg(high));
    assert(u.popped().sp == s.sp);
}

/// Subtracting the accumulator from itself leaves zero in it, with zero and
/// parity set and carry and sign clear.
pub proof fn subtract_self_clears(s: StateView)
    ensures
        ({
            let after = step(s, Op::Sub(Register::A), 0);
            &&& after.a == 0
            &&& after.flags.z
            &&& !after.flags.cy
            &&& !after.flags.s
            &&& after.flags.p
        }),
{
    assert(count_ones(0) == 0);
}

/// A call at program counter `P` pushes `P + 3`, the address of the next
/// instruction: the stack pointer drops by two, the two bytes below the old
/// stack pointer hold that address with its upper byte on top, and the
/// program counter is the target. A return that follows sets the program
/// counter to `P + 3` and restores the stack pointer.
pub proof fn call_then_return(s: StateView, target: u16)
    requires
        s.wf(),
        !is_diagnostic_call(s, Op::Call(target)),
    ensures
        ({
            let called = step(s, Op::Call(target), 0);
            let returned = step(called, Op::Ret, 0);
            &&& called.pc == target
            &&& called.sp == wrap16(s.sp - 2)
            &&& called.stack_top() == wrap16(s.pc + 3)
            &&& called.load(wrap16(s.sp - 1)) == high_byte(wrap16(s.pc + 3))
            &&& called.load(wrap16(s.sp - 2)) == low_byte(wrap16(s.pc + 3))
            &&& returned.pc == wrap16(s.pc + 3)
            &&& returned.sp == s.sp
        }),
{
}

/// An interrupt raised while interrupts are disabled changes nothing.
pub proof fn disabled_interrupt_is_ignored(c: CpuView, interrupt_num: u8)
    requires
        !c.interrupts_enabled,
    ensures
        c.interrupted(interrupt_num) == c,
{
}

/// An interrupt raised while interrupts are enabled is a call of eight
/// times its number: it pushes the program counter, leaves interrupts
/// enabled, and a return that follows resumes where the program was.
pub proof fn enabled_interrupt_is_a_call(c: CpuView, interrupt_num: u8)
    requires
        c.state.wf(),
        c.interrupts_enabled,
    ensures
        ({
            let entered = c.interrupted(interrupt_num);
            let resumed = step(entered.state, Op::Ret, 0);
            &&& entered.state.pc == 8 * interrupt_num
            &&& entered.state.sp == wrap16(c.state.sp - 2)
            &&& entered.state.stack_top() == c.state.pc
            &&& entered.interrupts_enabled
            &&& resumed.pc == c.state.pc
            &&& resumed.sp == c.state.sp
        }),
{
    pushed_is_on_top(c.state, high_byte(c.state.pc), low_byte(c.state.pc));
}

/// Pushing the accumulator and flags and popping them again restores both.
pub proof fn push_then_pop_restores_flags(s: StateView)
    requires
        s.wf(),
    ensures
        ({
            let popped = step(step(s, Op::PushPsw, 0), Op::PopPsw, 0);
            &&& popped.a == s.a
            &&& popped.flags == s.flags
            &&& popped.sp == s.sp
        }),
{
    let t = s.advanced(1);
    pushed_is_on_top(t, t.a, t.flags.to_byte());
    s.flags.round_trip();
    let pushed = step(s, Op::PushPsw, 0);
    assert(pushed == t.pushed(t.a, t.flags.to_byte()));
    let u = pushed.advanced(1);
    assert(u.load(u.sp) == s.flags.to_byte());
    assert(u.load(wrap16(u.sp + 1)) == s.a);
}

/// Adding a register pair to HL sets carry exactly when the sum exceeds
/// sixteen bits, and changes no other flag.
pub proof fn double_add_carry(s: StateView, reg: Register)
    requires
        reg.is_pair(),
    ensures
        ({
            let after = step(s, Op::Dad(reg), 0);
            &&& after.flags.cy == (s.pair(Register::Hl) + s.pair(reg) > 0xffff)
            &&& after.pair(Register::Hl) == wrap16(s.pair(Register::Hl) + s.pair(reg))
            &&& after.flags == (Flags { cy: after.flags.cy, ..s.flags })
        }),
{
}

/// The end of a message lies between its start and the end of memory; no
/// byte before it is the sentinel; and it is the end of memory or holds the
/// sentinel.
pub proof fn message_end_is_first_sentinel(memory: Seq<u8>, from: int)
    requires
        0 <= from <= memory.len(),
    ensures
        from <= message_end(memory, from) <= memory.len(),
        forall|i: int| from <= i < message_end(memory, from) ==> memory[i] != DIAGNOSTIC_SENTINEL,
        message_end(memory, from) == memory.len() || memory[message_end(memory, from)]
            == DIAGNOSTIC_SENTINEL,
    decreases memory.len() - from,
{
    if from < memory.len() && memory[from] != DIAGNOSTIC_SENTINEL {
        message_end_is_first_sentinel(memory, from + 1);
    }
}

/// The diagnostic message holds no sentinel byte, and the byte that follows
/// it in memory, if there is one, is the sentinel.
pub proof fn diagnostic_message_is_delimited(s: StateView)
    ensures
        ({
            let message = diagnostic_message(s);
            let end = message_start(s) + message.len();
            &&& end <= s.memory.len()
            &&& forall|i: int| 0 <= i < message.len() ==> message[i] != DIAGNOSTIC_SENTINEL
            &&& forall|i: int|
                0 <= i < message.len() ==> message[i] == s.memory[message_start(s) + i]
            &&& (end == s.memory.len() || s.memory[end] == DIAGNOSTIC_SENTINEL)
        }),
{
    message_end_is_first_sentinel(s.memory, message_start(s));
}

} // verus!
