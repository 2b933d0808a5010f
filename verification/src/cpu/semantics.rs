//! What each instruction does, as functions on the model of the state.
//!
//! [`step`] is the meaning of one instruction and [`cycles`] is its cost.
//! The pieces they are built from are methods of [`StateView`], one for each
//! family of instructions.

use vstd::prelude::*;
use crate::cpu::bits::{high_byte, low_byte, word, wrap16, wrap8};
use crate::cpu::op::Op;
use crate::cpu::state::{Flags, Register, StateView};

verus! {

/// The address whose call ends a diagnostic run.
pub const DIAGNOSTIC_ENTRY: u16 = 5;

/// The value of register C that selects the message service of the
/// diagnostic entry.
pub const DIAGNOSTIC_PRINT: u8 = 9;

/// Where the message starts, counted from the value of DE.
pub const DIAGNOSTIC_OFFSET: u16 = 3;

/// The byte that ends the message.
pub const DIAGNOSTIC_SENTINEL: u8 = 36;

impl Op {
    /// Whether the condition that guards the instruction holds under the
    /// flags `f`. Each conditional jump, call and return tests exactly one
    /// flag; every other instruction is unguarded.
    pub open spec fn condition_holds(self, f: Flags) -> bool {
        match self {
            Op::Jnz(_) | Op::Cnz(_) | Op::Rnz => !f.z,
            Op::Jz(_) | Op::Cz(_) | Op::Rz => f.z,
            Op::Jnc(_) | Op::Cnc(_) | Op::Rnc => !f.cy,
            Op::Jc(_) | Op::Cc(_) | Op::Rc => f.cy,
            Op::Jpo(_) | Op::Cpo(_) | Op::Rpo => !f.p,
            Op::Jpe(_) | Op::Cpe(_) | Op::Rpe => f.p,
            Op::Jp(_) | Op::Cp(_) | Op::Rp => !f.s,
            Op::Jm(_) | Op::Cm(_) | Op::Rm => f.s,
            _ => true,
        }
    }

    /// Whether the interrupt latch is set after the instruction, given
    /// whether it was set before: only `Ei` and `Di` change it.
    pub open spec fn interrupts_after(self, enabled: bool) -> bool {
        match self {
            Op::Ei => true,
            Op::Di => false,
            _ => enabled,
        }
    }
}

/// Whether executing `op` in state `s` is the call that ends a diagnostic
/// run: an unconditional call of the diagnostic entry with the message
/// service selected in register C.
pub open spec fn is_diagnostic_call(s: StateView, op: Op) -> bool {
    op == Op::Call(DIAGNOSTIC_ENTRY) && s.c == DIAGNOSTIC_PRINT
}

/// Where the diagnostic message starts: three bytes above the value of DE,
/// but never beyond the end of memory.
pub open spec fn message_start(s: StateView) -> int {
    if s.pair(Register::De) + DIAGNOSTIC_OFFSET <= s.memory.len() {
        s.pair(Register::De) + DIAGNOSTIC_OFFSET
    } else {
        s.memory.len() as int
    }
}

/// The first address at or after `from` that holds the sentinel byte, or
/// the length of the memory where none does.
pub open spec fn message_end(memory: Seq<u8>, from: int) -> int
    decreases memory.len() - from,
{
    if from < 0 || from >= memory.len() {
        memory.len() as int
    } else if memory[from] == DIAGNOSTIC_SENTINEL {
        from
    } else {
        message_end(memory, from + 1)
    }
}

/// The message that a diagnostic run leaves: the bytes of memory from
/// [`message_start`] up to the first sentinel byte, or up to the end of
/// memory where no sentinel follows.
pub open spec fn diagnostic_message(s: StateView) -> Seq<u8> {
    s.memory.subrange(message_start(s), message_end(s.memory, message_start(s)))
}

impl StateView {
    /// The state with the program counter moved `n` bytes on.
    pub open spec fn advanced(self, n: nat) -> StateView {
        StateView { pc: wrap16(self.pc + n), ..self }
    }

    /// The state after adding `operand` and the incoming carry to the
    /// accumulator: the sum wraps at eight bits, zero, sign and parity
    /// follow the result, and carry is set exactly when the sum did not fit
    /// in eight bits.
    pub open spec fn added(self, operand: u8, carry_in: bool) -> StateView {
        let sum = self.a + operand + (if carry_in { 1int } else { 0 });
        StateView {
            a: wrap8(sum),
            flags: Flags { cy: sum > 0xff, ..self.flags.with_result(wrap8(sum)) },
            ..self
        }
    }

    /// The state after subtracting `operand` and the incoming borrow from
    /// the accumulator: the difference wraps at eight bits, zero, sign and
    /// parity follow the result, and carry is set exactly when a borrow
    /// occurred.
    pub open spec fn subtracted(self, operand: u8, borrow_in: bool) -> StateView {
        let difference = self.a - operand - (if borrow_in { 1int } else { 0 });
        StateView {
            a: wrap8(difference),
            flags: Flags { cy: difference < 0, ..self.flags.with_result(wrap8(difference)) },
            ..self
        }
    }

    /// The state after comparing the accumulator with `operand`: the flags
    /// of the subtraction, with carry set exactly when the accumulator is
    /// less than the operand; the accumulator keeps its value.
    pub open spec fn compared(self, operand: u8) -> StateView {
        StateView { flags: self.subtracted(operand, false).flags, ..self }
    }

    /// The state after a logical operation whose result is `result`: the
    /// result goes to the accumulator, zero, sign and parity follow it, and
    /// carry is set exactly when the result is greater than the value that
    /// the accumulator held before. An AND can therefore never set carry.
    pub open spec fn combined(self, result: u8) -> StateView {
        StateView {
            a: result,
            flags: Flags { cy: self.a < result, ..self.flags.with_result(result) },
            ..self
        }
    }

    /// The state after adding one to an operand: zero, sign and parity
    /// follow the result; carry is left alone.
    pub open spec fn incremented(self, reg: Register) -> StateView {
        let result = wrap8(self.reg(reg) + 1);
        StateView { flags: self.flags.with_result(result), ..self.with_reg(reg, result) }
    }

    /// The state after taking one from an operand: zero, sign and parity
    /// follow the result; carry is left alone.
    pub open spec fn decremented(self, reg: Register) -> StateView {
        let result = wrap8(self.reg(reg) - 1);
        StateView { flags: self.flags.with_result(result), ..self.with_reg(reg, result) }
    }

    /// The state after adding `value` to HL: the sum wraps at sixteen bits
    /// and carry is set exactly when it did not fit; no other flag changes.
    pub open spec fn double_added(self, value: u16) -> StateView {
        let sum = self.pair(Register::Hl) + value;
        StateView {
            flags: Flags { cy: sum > 0xffff, ..self.flags },
            ..self.with_pair(Register::Hl, wrap16(sum))
        }
    }

    /// The accumulator rotated left by one bit: bit 7 goes to bit 0 and to
    /// carry.
    pub open spec fn rotated_left(self) -> StateView {
        StateView {
            a: wrap8(self.a * 2 + self.a / 0x80),
            flags: Flags { cy: self.a >= 0x80, ..self.flags },
            ..self
        }
    }

    /// The accumulator rotated right by one bit: bit 0 goes to bit 7 and to
    /// carry.
    pub open spec fn rotated_right(self) -> StateView {
        StateView {
            a: wrap8(self.a / 2 + (self.a % 2) * 0x80),
            flags: Flags { cy: self.a % 2 == 1, ..self.flags },
            ..self
        }
    }

    /// The accumulator rotated left through carry: carry goes to bit 0 and
    /// bit 7 goes to carry.
    pub open spec fn rotated_left_through_carry(self) -> StateView {
        StateView {
            a: wrap8(self.a * 2 + (if self.flags.cy { 1int } else { 0 })),
            flags: Flags { cy: self.a >= 0x80, ..self.flags },
            ..self
        }
    }

    /// The accumulator rotated right through carry: carry goes to bit 7 and
    /// bit 0 goes to carry.
    pub open spec fn rotated_right_through_carry(self) -> StateView {
        StateView {
            a: wrap8(self.a / 2 + (if self.flags.cy { 0x80int } else { 0 })),
            flags: Flags { cy: self.a % 2 == 1, ..self.flags },
            ..self
        }
    }

    /// The accumulator adjusted to two decimal digits.
    ///
    /// Six is added to the accumulator when its lower digit exceeds nine or
    /// auxiliary carry is set; a carry out of the lower digit moves into the
    /// upper one, and one out of the byte is dropped. Then six is added to
    /// the upper digit when it exceeds nine or carry is set. Auxiliary carry
    /// is set exactly when the upper digit as corrected exceeds nine; zero,
    /// sign and parity follow the result; carry is left alone.
    pub open spec fn decimal_adjusted(self) -> StateView {
        let low = self.a % 0x10;
        let first: int = if low > 9 || self.flags.ac {
            self.a + 6
        } else {
            self.a as int
        };
        let high = (first / 0x10) % 0x10;
        let corrected = if high > 9 || self.flags.cy {
            high + 6
        } else {
            high
        };
        let result = wrap8(corrected * 0x10 + first % 0x10);
        StateView {
            a: result,
            flags: Flags { ac: corrected + 6 > 0xf, ..self.flags.with_result(result) },
            ..self
        }
    }

    /// The state with the program counter at `addr`.
    pub open spec fn jumped(self, addr: u16) -> StateView {
        StateView { pc: addr, ..self }
    }

    /// The state after a call of `addr`: the program counter is pushed,
    /// upper byte above lower byte, and then set to `addr`.
    pub open spec fn called(self, addr: u16) -> StateView {
        self.pushed(high_byte(self.pc), low_byte(self.pc)).jumped(addr)
    }

    /// The state after a return: the word on top of the stack is popped
    /// into the program counter.
    pub open spec fn returned(self) -> StateView {
        self.popped().jumped(self.stack_top())
    }

    /// The state with HL and the word on top of the stack exchanged.
    pub open spec fn exchanged_with_stack(self) -> StateView {
        let low_at = self.sp;
        let high_at = wrap16(self.sp + 1);
        let first = StateView { l: self.load(low_at), ..self.store(low_at, self.l) };
        StateView { h: first.load(high_at), ..first.store(high_at, first.h) }
    }
}

/// The state after executing `op` in state `s`, where `input` is the byte
/// that the device gave to an `In`.
///
/// The program counter first moves past the instruction. A jump, call or
/// return then overwrites it, so the return address that a call pushes is
/// the address of the instruction after the call. The call that ends a
/// diagnostic run does nothing more than that first move.
pub open spec fn step(s: StateView, op: Op, input: u8) -> StateView {
    let t = s.advanced(op.size());
    match op {
        Op::Nop | Op::Ei | Op::Di | Op::Out(_) => t,
        Op::Incr(reg) => t.incremented(reg),
        Op::Decr(reg) => t.decremented(reg),
        Op::Add(reg) => t.added(t.reg(reg), false),
        Op::Adc(reg) => t.added(t.reg(reg), t.flags.cy),
        Op::Adi(val) => t.added(val, false),
        Op::Aci(val) => t.added(val, t.flags.cy),
        Op::Sub(reg) => t.subtracted(t.reg(reg), false),
        Op::Sbb(reg) => t.subtracted(t.reg(reg), t.flags.cy),
        Op::Sui(val) => t.subtracted(val, false),
        Op::Sbi(val) => t.subtracted(val, t.flags.cy),
        Op::Cmp(reg) => t.compared(t.reg(reg)),
        Op::Cpi(val) => t.compared(val),
        Op::Ana(reg) => t.combined(t.a & t.reg(reg)),
        Op::Ani(val) => t.combined(t.a & val),
        Op::Xra(reg) => t.combined(t.a ^ t.reg(reg)),
        Op::Xri(val) => t.combined(t.a ^ val),
        Op::Ora(reg) => t.combined(t.a | t.reg(reg)),
        Op::Ori(val) => t.combined(t.a | val),
        Op::Mov(dest, source) => t.with_reg(dest, t.reg(source)),
        Op::Mvi(reg, val) => t.with_reg(reg, val),
        Op::Lxi(high_reg, low_reg, low, high) => t.with_reg(high_reg, high).with_reg(
            low_reg,
            low,
        ),
        Op::LxiSp(low, high) => StateView { sp: word(high, low), ..t },
        Op::Dad(reg) => t.double_added(t.pair(reg)),
        Op::DadSp => t.double_added(t.sp),
        Op::Stax(reg) => t.with_reg(reg, t.a),
        Op::Ldax(reg) => StateView { a: t.reg(reg), ..t },
        Op::Inx(reg) => t.with_pair(reg, wrap16(t.pair(reg) + 1)),
        Op::Dcx(reg) => t.with_pair(reg, wrap16(t.pair(reg) - 1)),
        Op::InxSp => StateView { sp: wrap16(t.sp + 1), ..t },
        Op::DcxSp => StateView { sp: wrap16(t.sp - 1), ..t },
        Op::Push(high_reg, low_reg) => t.pushed(t.reg(high_reg), t.reg(low_reg)),
        Op::Pop(high_reg, low_reg) => t.popped().with_reg(
            high_reg,
            t.load(wrap16(t.sp + 1)),
        ).with_reg(low_reg, t.load(t.sp)),
        Op::PushPsw => t.pushed(t.a, t.flags.to_byte()),
        Op::PopPsw => StateView {
            a: t.load(wrap16(t.sp + 1)),
            flags: Flags::from_byte(t.load(t.sp)),
            ..t.popped()
        },
        Op::Rlc => t.rotated_left(),
        Op::Rrc => t.rotated_right(),
        Op::Ral => t.rotated_left_through_carry(),
        Op::Rar => t.rotated_right_through_carry(),
        Op::Shld(addr) => t.store(addr, t.l).store(wrap16(addr + 1), t.h),
        Op::Lhld(addr) => StateView { l: t.load(addr), h: t.load(wrap16(addr + 1)), ..t },
        Op::Cma => StateView { a: !t.a, ..t },
        Op::Sta(addr) => t.store(addr, t.a),
        Op::Lda(addr) => StateView { a: t.load(addr), ..t },
        Op::Stc => StateView { flags: Flags { cy: true, ..t.flags }, ..t },
        Op::Cmc => StateView { flags: Flags { cy: !t.flags.cy, ..t.flags }, ..t },
        Op::Jmp(addr)
        | Op::Jnz(addr)
        | Op::Jz(addr)
        | Op::Jnc(addr)
        | Op::Jc(addr)
        | Op::Jpo(addr)
        | Op::Jpe(addr)
        | Op::Jp(addr)
        | Op::Jm(addr) => if op.condition_holds(t.flags) {
            t.jumped(addr)
        } else {
            t
        },
        Op::Call(addr)
        | Op::Cnz(addr)
        | Op::Cz(addr)
        | Op::Cnc(addr)
        | Op::Cc(addr)
        | Op::Cpo(addr)
        | Op::Cpe(addr)
        | Op::Cp(addr)
        | Op::Cm(addr) => if is_diagnostic_call(s, op) {
            t
        } else if op.condition_holds(t.flags) {
            t.called(addr)
        } else {
            t
        },
        Op::Ret
        | Op::Rnz
        | Op::Rz
        | Op::Rnc
        | Op::Rc
        | Op::Rpo
        | Op::Rpe
        | Op::Rp
        | Op::Rm => if op.condition_holds(t.flags) {
            t.returned()
        } else {
            t
        },
        Op::Pchl => t.jumped(t.pair(Register::Hl)),
        Op::Sphl => StateView { sp: t.pair(Register::Hl), ..t },
        Op::Xthl => t.exchanged_with_stack(),
        Op::Xchg => StateView { h: t.d, l: t.e, d: t.h, e: t.l, ..t },
        Op::In(_) => StateView { a: input, ..t },
        Op::Daa => t.decimal_adjusted(),
    }
}

/// The number of machine cycles that executing `op` in state `s` takes. A
/// conditional call or return costs more when it is taken, and some
/// instructions cost more when their operand is in memory.
pub open spec fn cycles(s: StateView, op: Op) -> u8 {
    match op {
        Op::Nop
        | Op::Ei
        | Op::Di
        | Op::Add(_)
        | Op::Adc(_)
        | Op::Sub(_)
        | Op::Sbb(_)
        | Op::Ana(_)
        | Op::Xra(_)
        | Op::Cmp(_)
        | Op::Rlc
        | Op::Rrc
        | Op::Ral
        | Op::Rar
        | Op::Cma
        | Op::Stc
        | Op::Cmc
        | Op::Daa => 4,
        Op::Ora(reg) => if reg is Hl {
            7
        } else {
            4
        },
        Op::Incr(_)
        | Op::Inx(_)
        | Op::Dcx(_)
        | Op::InxSp
        | Op::DcxSp
        | Op::Pchl
        | Op::Sphl
        | Op::Xchg => 5,
        Op::Decr(reg) => if reg is Hl {
            10
        } else {
            5
        },
        Op::Mov(dest, source) => if dest is Hl || source is Hl {
            7
        } else {
            5
        },
        Op::Mvi(reg, _) => if reg is Hl {
            10
        } else {
            7
        },
        Op::Stax(_)
        | Op::Ldax(_)
        | Op::Adi(_)
        | Op::Aci(_)
        | Op::Sui(_)
        | Op::Sbi(_)
        | Op::Ani(_)
        | Op::Xri(_)
        | Op::Ori(_)
        | Op::Cpi(_) => 7,
        Op::Lxi(_, _, _, _)
        | Op::LxiSp(_, _)
        | Op::Dad(_)
        | Op::DadSp
        | Op::Pop(_, _)
        | Op::PopPsw
        | Op::In(_)
        | Op::Out(_)
        | Op::Ret
        | Op::Jmp(_)
        | Op::Jnz(_)
        | Op::Jz(_)
        | Op::Jnc(_)
        | Op::Jc(_)
        | Op::Jpo(_)
        | Op::Jpe(_)
        | Op::Jp(_)
        | Op::Jm(_) => 10,
        Op::Push(_, _) | Op::PushPsw => 11,
        Op::Sta(_) | Op::Lda(_) => 13,
        Op::Shld(_) | Op::Lhld(_) => 16,
        Op::Xthl => 18,
        Op::Call(_) => 17,
        Op::Cnz(_)
        | Op::Cz(_)
        | Op::Cnc(_)
        | Op::Cc(_)
        | Op::Cpo(_)
        | Op::Cpe(_)
        | Op::Cp(_)
        | Op::Cm(_) => if op.condition_holds(s.flags) {
            17
        } else {
            11
        },
        Op::Rnz
        | Op::Rz
        | Op::Rnc
        | Op::Rc
        | Op::Rpo
        | Op::Rpe
        | Op::Rp
        | Op::Rm => if op.condition_holds(s.flags) {
            11
        } else {
            5
        },
    }
}

} // verus!
