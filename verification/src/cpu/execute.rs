//! The execution engine: one decoded instruction applied to the state.

use vstd::prelude::*;
use vstd::pervasive::unreached;
use crate::cpu::bits::{add16, add8, make_word, split_word, sub16, sub8};
use crate::cpu::op::{Family, Op};
use crate::cpu::semantics::{
    cycles, diagnostic_message, is_diagnostic_call, message_end, message_start, step,
    DIAGNOSTIC_ENTRY, DIAGNOSTIC_OFFSET, DIAGNOSTIC_PRINT, DIAGNOSTIC_SENTINEL,
};
use crate::cpu::state::{Flags, Register, State, StateView, MEMORY_SIZE};

verus! {

impl Op {
    /// Whether the condition that guards the instruction holds under the
    /// flags `f`.
    pub fn is_taken(&self, f: &Flags) -> (taken: bool)
        ensures
            taken == self.condition_holds(*f),
    {
        match self {
            Op::Jnz(_) | Op::Cnz(_) | Op::Rnz => !f.z,
            Op::Jz(_) | Op::Cz(_) | Op::Rz => f.z,
            Op::Jnc(_) | Op::Cnc(_) | Op::Rnc => !f.cy,
            Op::Jc(_) | Op::Cc(_) | Op::Rc => f.cy,
            Op::Jpo(_) | Op::Cpo(_) | Op::Rpo => !f.p,
            Op::Jpe(_) | Op::Cpe(_) | Op::Rpe => f.p,
            Op::Jp(_) | Op::Cp(_) | Op::Rp => !f.s,
            Op::Jm(_) | Op::Cm(_) | Op::Rm => f.s,
            _ => true,
        }
    }
}

impl State {
    /// Moves the program counter `n` bytes on, wrapping at the top of the
    /// address space.
    pub fn advance(&mut self, n: u16)
        ensures
            final(self)@ == old(self)@.advanced(n as nat),
            final(self).wf() == old(self).wf(),
    {
        self.pc = add16(self.pc, n);
    }

    /// Adds `operand` and the incoming carry to the accumulator.
    pub fn add_to_accumulator(&mut self, operand: u8, carry_in: bool)
        ensures
            final(self)@ == old(self)@.added(operand, carry_in),
            final(self).wf() == old(self).wf(),
    {
        let carry: u16 = if carry_in {
            1
        } else {
            0
        };
        let sum: u16 = self.a as u16 + operand as u16 + carry;
        let result: u8 = (sum % 0x100) as u8;
        self.set_flags(result);
        self.flags.cy = sum > 0xff;
        self.a = result;
    }

    /// The accumulator less `operand` and the incoming borrow, wrapped at
    /// eight bits, and whether a borrow occurred.
    fn difference(&self, operand: u8, borrow_in: bool) -> (r: (u8, bool))
        ensures
            r.0 == self@.subtracted(operand, borrow_in).a,
            r.1 == self@.subtracted(operand, borrow_in).flags.cy,
    {
        let borrow: i16 = if borrow_in {
            1
        } else {
            0
        };
        let difference: i16 = self.a as i16 - operand as i16 - borrow;
        if difference < 0 {
            ((difference + 0x100) as u8, true)
        } else {
            (difference as u8, false)
        }
    }

    /// Subtracts `operand` and the incoming borrow from the accumulator.
    pub fn subtract_from_accumulator(&mut self, operand: u8, borrow_in: bool)
        ensures
            final(self)@ == old(self)@.subtracted(operand, borrow_in),
            final(self).wf() == old(self).wf(),
    {
        let (result, borrowed) = self.difference(operand, borrow_in);
        self.set_flags(result);
        self.flags.cy = borrowed;
        self.a = result;
    }

    /// Compares the accumulator with `operand`: sets the flags of the
    /// subtraction and keeps the accumulator.
    pub fn compare_with_accumulator(&mut self, operand: u8)
        ensures
            final(self)@ == old(self)@.compared(operand),
            final(self).wf() == old(self).wf(),
    {
        let (result, borrowed) = self.difference(operand, false);
        self.set_flags(result);
        self.flags.cy = borrowed;
    }

    /// Stores the result of a logical operation in the accumulator and sets
    /// the flags from it.
    pub fn combine_into_accumulator(&mut self, result: u8)
        ensures
            final(self)@ == old(self)@.combined(result),
            final(self).wf() == old(self).wf(),
    {
        self.set_flags(result);
        self.flags.cy = self.a < result;
        self.a = result;
    }

    /// Adds one to an operand.
    pub fn increment(&mut self, reg: &Register)
        requires
            old(self).wf(),
        ensures
            final(self).wf(),
            final(self)@ == old(self)@.incremented(*reg),
    {
        let result = add8(self.get_register(reg), 1);
        self.set_flags(result);
        self.set_register(reg, result);
    }

    /// Takes one from an operand.
    pub fn decrement(&mut self, reg: &Register)
        requires
            old(self).wf(),
        ensures
            final(self).wf(),
            final(self)@ == old(self)@.decremented(*reg),
    {
        let result = sub8(self.get_register(reg), 1);
        self.set_flags(result);
        self.set_register(reg, result);
    }

    /// Adds `value` to HL.
    pub fn double_add(&mut self, value: u16)
        ensures
            final(self)@ == old(self)@.double_added(value),
            final(self).wf() == old(self).wf(),
    {
        let hl = make_word(self.h, self.l);
        let sum: u32 = hl as u32 + value as u32;
        self.flags.cy = sum > 0xffff;
        let (high, low) = split_word((sum % 0x1_0000) as u16);
        self.h = high;
        self.l = low;
    }

    /// Rotates the accumulator left by one bit.
    pub fn rotate_left(&mut self)
        ensures
            final(self)@ == old(self)@.rotated_left(),
            final(self).wf() == old(self).wf(),
    {
        let top: u8 = self.a / 0x80;
        self.flags.cy = top == 1;
        self.a = (self.a % 0x80) * 2 + top;
    }

    /// Rotates the accumulator right by one bit.
    pub fn rotate_right(&mut self)
        ensures
            final(self)@ == old(self)@.rotated_right(),
            final(self).wf() == old(self).wf(),
    {
        let bottom: u8 = self.a % 2;
        self.flags.cy = bottom == 1;
        self.a = self.a / 2 + bottom * 0x80;
    }

    /// Rotates the accumulator left through carry.
    pub fn rotate_left_through_carry(&mut self)
        ensures
            final(self)@ == old(self)@.rotated_left_through_carry(),
            final(self).wf() == old(self).wf(),
    {
        let top: u8 = self.a / 0x80;
        let carry: u8 = if self.flags.cy {
            1
        } else {
            0
        };
        self.a = (self.a % 0x80) * 2 + carry;
        self.flags.cy = top == 1;
    }

    /// Rotates the accumulator right through carry.
    pub fn rotate_right_through_carry(&mut self)
        ensures
            final(self)@ == old(self)@.rotated_right_through_carry(),
            final(self).wf() == old(self).wf(),
    {
        let bottom: u8 = self.a % 2;
        let carry: u8 = if self.flags.cy {
            0x80
        } else {
            0
        };
        self.a = self.a / 2 + carry;
        self.flags.cy = bottom == 1;
    }

    /// Adjusts the accumulator to two decimal digits.
    pub fn decimal_adjust(&mut self)
        ensures
            final(self)@ == old(self)@.decimal_adjusted(),
            final(self).wf() == old(self).wf(),
    {
        let mut value: u16 = self.a as u16;
        let low: u16 = value % 0x10;
        if low > 9 || self.flags.ac {
            value = value + 6;
        }
        let mut high: u16 = (value / 0x10) % 0x10;
        if high > 9 || self.flags.cy {
            high = high + 6;
        }
        let result: u8 = ((high * 0x10 + value % 0x10) % 0x100) as u8;
        self.flags.ac = high + 6 > 0xf;
        self.set_flags(result);
        self.a = result;
    }

    /// Pushes the program counter and continues at `addr`.
    pub fn call(&mut self, addr: u16)
        requires
            old(self).wf(),
        ensures
            final(self).wf(),
            final(self)@ == old(self)@.called(addr),
    {
        let (high, low) = split_word(self.pc);
        self.push(high, low);
        self.pc = addr;
    }

    /// Pops the word on top of the stack into the program counter.
    pub fn ret(&mut self)
        requires
            old(self).wf(),
        ensures
            final(self).wf(),
            final(self)@ == old(self)@.returned(),
    {
        let (high, low) = self.pop();
        self.pc = make_word(high, low);
    }

    /// Exchanges HL with the word on top of the stack.
    pub fn exchange_with_stack(&mut self)
        requires
            old(self).wf(),
        ensures
            final(self).wf(),
            final(self)@ == old(self)@.exchanged_with_stack(),
    {
        let low_at = self.sp;
        let high_at = add16(self.sp, 1);
        let low = self.load(low_at);
        self.store(low_at, self.l);
        self.l = low;
        let high = self.load(high_at);
        self.store(high_at, self.h);
        self.h = high;
    }

    /// Whether executing `op` now is the call that ends a diagnostic run.
    pub fn at_diagnostic_call(&self, op: &Op) -> (r: bool)
        ensures
            r == is_diagnostic_call(self@, *op),
    {
        match op {
            Op::Call(addr) => *addr == DIAGNOSTIC_ENTRY && self.c == DIAGNOSTIC_PRINT,
            _ => false,
        }
    }

    /// Executes an operation of the accumulator or of one operand that sets zero, sign and parity.
    fn apply_arithmetic(&mut self, op: &Op, input: u8) -> (elapsed: u8)
        requires
            old(self).wf(),
            op.well_formed(),
            op.family() == Family::Arithmetic,
        ensures
            final(self).wf(),
            final(self)@ == step(old(self)@, *op, input),
            elapsed == cycles(old(self)@, *op),
    {
        self.advance(op.get_size());
        match op {
            Op::Incr(reg) => {
                self.increment(reg);
                5
            },
            Op::Decr(reg) => {
                self.decrement(reg);
                match reg {
                    Register::Hl => 10,
                    _ => 5,
                }
            },
            Op::Add(reg) => {
                let operand = self.get_register(reg);
                self.add_to_accumulator(operand, false);
                4
            },
            Op::Sub(reg) => {
                let operand = self.get_register(reg);
                self.subtract_from_accumulator(operand, false);
                4
            },
            Op::Ana(reg) => {
                let result = self.a & self.get_register(reg);
                self.combine_into_accumulator(result);
                4
            },
            Op::Xra(reg) => {
                let result = self.a ^ self.get_register(reg);
                self.combine_into_accumulator(result);
                4
            },
            Op::Ora(reg) => {
                let result = self.a | self.get_register(reg);
                self.combine_into_accumulator(result);
                match reg {
                    Register::Hl => 7,
                    _ => 4,
                }
            },
            Op::Cmp(reg) => {
                let operand = self.get_register(reg);
                self.compare_with_accumulator(operand);
                4
            },
            Op::Adc(reg) => {
                let operand = self.get_register(reg);
                let carry = self.flags.cy;
                self.add_to_accumulator(operand, carry);
                4
            },
            Op::Sbb(reg) => {
                let operand = self.get_register(reg);
                let borrow = self.flags.cy;
                self.subtract_from_accumulator(operand, borrow);
                4
            },
            Op::Adi(val) => {
                self.add_to_accumulator(*val, false);
                7
            },
            Op::Aci(val) => {
                let carry = self.flags.cy;
                self.add_to_accumulator(*val, carry);
                7
            },
            Op::Sui(val) => {
                self.subtract_from_accumulator(*val, false);
                7
            },
            Op::Sbi(val) => {
                let borrow = self.flags.cy;
                self.subtract_from_accumulator(*val, borrow);
                7
            },
            Op::Ani(val) => {
                let result = self.a & *val;
                self.combine_into_accumulator(result);
                7
            },
            Op::Xri(val) => {
                let result = self.a ^ *val;
                self.combine_into_accumulator(result);
                7
            },
            Op::Ori(val) => {
                let result = self.a | *val;
                self.combine_into_accumulator(result);
                7
            },
            Op::Cpi(val) => {
                self.compare_with_accumulator(*val);
                7
            },
            Op::Daa => {
                self.decimal_adjust();
                4
            },
            _ => unreached(),
        }
    }

    /// Executes an operation on registers alone that leaves zero, sign and parity as they are.
    fn apply_register(&mut self, op: &Op, input: u8) -> (elapsed: u8)
        requires
            old(self).wf(),
            op.well_formed(),
            op.family() == Family::Register,
        ensures
            final(self).wf(),
            final(self)@ == step(old(self)@, *op, input),
            elapsed == cycles(old(self)@, *op),
    {
        self.advance(op.get_size());
        match op {
            Op::Rlc => {
                self.rotate_left();
                4
            },
            Op::Rrc => {
                self.rotate_right();
                4
            },
            Op::Ral => {
                self.rotate_left_through_carry();
                4
            },
            Op::Rar => {
                self.rotate_right_through_carry();
                4
            },
            Op::Cma => {
                self.a = !self.a;
                4
            },
            Op::Stc => {
                self.flags.cy = true;
                4
            },
            Op::Cmc => {
                self.flags.cy = !self.flags.cy;
                4
            },
            Op::Dad(reg) => {
                let value = self.get_register_16(reg);
                self.double_add(value);
                10
            },
            Op::DadSp => {
                let value = self.sp;
                self.double_add(value);
                10
            },
            Op::Inx(reg) => {
                let value = add16(self.get_register_16(reg), 1);
                self.set_register_16(reg, value);
                5
            },
            Op::Dcx(reg) => {
                let value = sub16(self.get_register_16(reg), 1);
                self.set_register_16(reg, value);
                5
            },
            Op::InxSp => {
                self.sp = add16(self.sp, 1);
                5
            },
            Op::DcxSp => {
                self.sp = sub16(self.sp, 1);
                5
            },
            Op::Nop => 4,
            Op::Ei => 4,
            Op::Di => 4,
            Op::Out(_) => 10,
            Op::In(_) => {
                self.a = input;
                10
            },
            Op::Xchg => {
                let high = self.h;
                self.h = self.d;
                self.d = high;
                let low = self.l;
                self.l = self.e;
                self.e = low;
                5
            },
            Op::Sphl => {
                self.sp = make_word(self.h, self.l);
                5
            },
            _ => unreached(),
        }
    }

    /// Executes a move between registers and memory.
    fn apply_transfer(&mut self, op: &Op, input: u8) -> (elapsed: u8)
        requires
            old(self).wf(),
            op.well_formed(),
            op.family() == Family::Transfer,
        ensures
            final(self).wf(),
            final(self)@ == step(old(self)@, *op, input),
            elapsed == cycles(old(self)@, *op),
    {
        self.advance(op.get_size());
        match op {
            Op::Mov(dest, source) => {
                let value = self.get_register(source);
                self.set_register(dest, value);
                match (dest, source) {
                    (Register::Hl, _) => 7,
                    (_, Register::Hl) => 7,
                    _ => 5,
                }
            },
            Op::Mvi(reg, val) => {
                self.set_register(reg, *val);
                match reg {
                    Register::Hl => 10,
                    _ => 7,
                }
            },
            Op::Lxi(high_reg, low_reg, low, high) => {
                self.set_register(high_reg, *high);
                self.set_register(low_reg, *low);
                10
            },
            Op::LxiSp(low, high) => {
                self.sp = make_word(*high, *low);
                10
            },
            Op::Stax(reg) => {
                let value = self.a;
                self.set_register(reg, value);
                7
            },
            Op::Ldax(reg) => {
                self.a = self.get_register(reg);
                7
            },
            Op::Sta(addr) => {
                let value = self.a;
                self.store(*addr, value);
                13
            },
            Op::Lda(addr) => {
                self.a = self.load(*addr);
                13
            },
            Op::Shld(addr) => {
                let low = self.l;
                let high = self.h;
                self.store(*addr, low);
                self.store(add16(*addr, 1), high);
                16
            },
            Op::Lhld(addr) => {
                self.l = self.load(*addr);
                self.h = self.load(add16(*addr, 1));
                16
            },
            _ => unreached(),
        }
    }

    /// Executes a push, a pop or an exchange with the top of the stack.
    fn apply_stack(&mut self, op: &Op, input: u8) -> (elapsed: u8)
        requires
            old(self).wf(),
            op.well_formed(),
            op.family() == Family::Stack,
        ensures
            final(self).wf(),
            final(self)@ == step(old(self)@, *op, input),
            elapsed == cycles(old(self)@, *op),
    {
        self.advance(op.get_size());
        match op {
            Op::Push(high_reg, low_reg) => {
                let high = self.get_register(high_reg);
                let low = self.get_register(low_reg);
                self.push(high, low);
                11
            },
            Op::Pop(high_reg, low_reg) => {
                let (high, low) = self.pop();
                self.set_register(high_reg, high);
                self.set_register(low_reg, low);
                10
            },
            Op::PushPsw => {
                let high = self.a;
                let low = self.flags.pack();
                self.push(high, low);
                11
            },
            Op::PopPsw => {
                let (high, low) = self.pop();
                self.a = high;
                self.flags = Flags::unpack(low);
                10
            },
            Op::Xthl => {
                self.exchange_with_stack();
                18
            },
            _ => unreached(),
        }
    }

    /// Executes a jump, a call or a return.
    fn apply_control(&mut self, op: &Op, input: u8) -> (elapsed: u8)
        requires
            old(self).wf(),
            op.well_formed(),
            op.family() == Family::Control,
        ensures
            final(self).wf(),
            final(self)@ == step(old(self)@, *op, input),
            elapsed == cycles(old(self)@, *op),
    {
        let hooked = self.at_diagnostic_call(op);
        let taken = op.is_taken(&self.flags);
        self.advance(op.get_size());
        match op {
            Op::Jmp(addr)
            | Op::Jnz(addr)
            | Op::Jz(addr)
            | Op::Jnc(addr)
            | Op::Jc(addr)
            | Op::Jpo(addr)
            | Op::Jpe(addr)
            | Op::Jp(addr)
            | Op::Jm(addr) => {
                if taken {
                    self.pc = *addr;
                }
                10
            },
            Op::Call(addr) => {
                if !hooked {
                    self.call(*addr);
                }
                17
            },
            Op::Cnz(addr)
            | Op::Cz(addr)
            | Op::Cnc(addr)
            | Op::Cc(addr)
            | Op::Cpo(addr)
            | Op::Cpe(addr)
            | Op::Cp(addr)
            | Op::Cm(addr) => {
                if taken {
                    self.call(*addr);
                    17
                } else {
                    11
                }
            },
            Op::Ret => {
                self.ret();
                10
            },
            Op::Rnz | Op::Rz | Op::Rnc | Op::Rc | Op::Rpo | Op::Rpe | Op::Rp | Op::Rm => {
                if taken {
                    self.ret();
                    11
                } else {
                    5
                }
            },
            Op::Pchl => {
                self.pc = make_word(self.h, self.l);
                5
            },
            _ => unreached(),
        }
    }

    /// Executes one instruction and returns the machine cycles it took.
    /// `input` is the byte that the device gave for an `In`; every other
    /// instruction ignores it. An `Out` changes nothing but the program
    /// counter: the write to the device is the caller's.
    pub fn apply(&mut self, op: &Op, input: u8) -> (elapsed: u8)
        requires
            old(self).wf(),
            op.well_formed(),
        ensures
            final(self).wf(),
            final(self)@ == step(old(self)@, *op, input),
            elapsed == cycles(old(self)@, *op),
            4 <= elapsed <= 18,
    {
        match op.get_family() {
            Family::Arithmetic => self.apply_arithmetic(op, input),
            Family::Register => self.apply_register(op, input),
            Family::Transfer => self.apply_transfer(op, input),
            Family::Stack => self.apply_stack(op, input),
            Family::Control => self.apply_control(op, input),
        }
    }

    /// The message that a diagnostic run leaves in memory.
    pub fn diagnostic_message(&self) -> (message: Vec<u8>)
        requires
            self.wf(),
        ensures
            message@ == diagnostic_message(self@),
    {
        let de: usize = make_word(self.d, self.e) as usize;
        let start: usize = if de + (DIAGNOSTIC_OFFSET as usize) <= MEMORY_SIZE {
            de + (DIAGNOSTIC_OFFSET as usize)
        } else {
            MEMORY_SIZE
        };
        let mut message: Vec<u8> = Vec::new();
        let mut at: usize = start;
        while at < MEMORY_SIZE && self.memory[at] != DIAGNOSTIC_SENTINEL
            invariant
                self.wf(),
                start == message_start(self@),
                start <= at <= MEMORY_SIZE,
                message@ == self@.memory.subrange(start as int, at as int),
                message_end(self@.memory, start as int) == message_end(self@.memory, at as int),
            decreases MEMORY_SIZE - at,
        {
            message.push(self.memory[at]);
            at = at + 1;
        }
        message
    }
}

} // verus!
