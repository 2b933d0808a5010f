//! The register file, the flags and the memory of the processor, with the
//! mathematical model that every contract of the processor is stated over.

use vstd::prelude::*;
use crate::cpu::bits::{
    add16, bit, even_parity, high_byte, low_byte, make_word, parity, split_word, sub16, test_bit,
    word, wrap16,
};

verus! {

/// Size of the address space in bytes: every 16-bit address is backed.
pub const MEMORY_SIZE: usize = 0x1_0000;

/// An operand of an instruction.
///
/// `A` to `L` name the seven 8-bit registers. `Hl`, `Bc` and `De` name a
/// register pair: where an instruction takes a 16-bit value the pair itself
/// is meant, and where it takes a byte the pair is a pointer and the byte is
/// the one in memory at the pair's value.
#[derive(Clone, Copy, Debug, PartialEq, Eq, Structural)]
pub enum Register {
    A,
    B,
    C,
    D,
    E,
    H,
    L,
    Hl,
    Bc,
    De,
}

/// The five condition bits.
#[derive(Clone, Copy, Debug, PartialEq, Eq, Structural)]
pub struct Flags {
    /// Zero: the last result was 0.
    pub z: bool,
    /// Sign: bit 7 of the last result was set.
    pub s: bool,
    /// Parity: the last result held an even number of one-bits.
    pub p: bool,
    /// Carry.
    pub cy: bool,
    /// Auxiliary carry.
    pub ac: bool,
}

/// The processor state: registers, stack pointer, program counter, memory
/// and flags.
pub struct State {
    pub a: u8,
    pub b: u8,
    pub c: u8,
    pub d: u8,
    pub e: u8,
    pub h: u8,
    pub l: u8,
    pub sp: u16,
    pub pc: u16,
    pub memory: Vec<u8>,
    pub flags: Flags,
}

/// The mathematical model of a [`State`]: the same registers and flags, and
/// the memory as a sequence of bytes indexed by address.
pub struct StateView {
    pub a: u8,
    pub b: u8,
    pub c: u8,
    pub d: u8,
    pub e: u8,
    pub h: u8,
    pub l: u8,
    pub sp: u16,
    pub pc: u16,
    pub memory: Seq<u8>,
    pub flags: Flags,
}

impl Register {
    /// Whether the operand names a register pair.
    pub open spec fn is_pair(self) -> bool {
        self is Hl || self is Bc || self is De
    }

    /// The operand's name as a sequence of characters.
    pub open spec fn name(self) -> Seq<char> {
        match self {
            Register::A => "A"@,
            Register::B => "B"@,
            Register::C => "C"@,
            Register::D => "D"@,
            Register::E => "E"@,
            Register::H => "H"@,
            Register::L => "L"@,
            Register::Hl => "HL"@,
            Register::Bc => "BC"@,
            Register::De => "DE"@,
        }
    }

    /// The operand's name.
    pub fn to_string(&self) -> (s: &'static str)
        ensures
            s@ == self.name(),
    {
        match self {
            Register::A => "A",
            Register::B => "B",
            Register::C => "C",
            Register::D => "D",
            Register::E => "E",
            Register::H => "H",
            Register::L => "L",
            Register::Hl => "HL",
            Register::Bc => "BC",
            Register::De => "DE",
        }
    }
}

/// The bits of the sum that packs five single-bit values into a byte.
proof fn packed_bits(c: u8, p: u8, a: u8, z: u8, s: u8)
    by (bit_vector)
    requires
        c <= 1,
        p <= 1,
        a <= 1,
        z <= 1,
        s <= 1,
    ensures
        bit((c + 2 + 4 * p + 16 * a + 64 * z + 128 * s) as u8, 0) == (c == 1),
        bit((c + 2 + 4 * p + 16 * a + 64 * z + 128 * s) as u8, 1),
        bit((c + 2 + 4 * p + 16 * a + 64 * z + 128 * s) as u8, 2) == (p == 1),
        !bit((c + 2 + 4 * p + 16 * a + 64 * z + 128 * s) as u8, 3),
        bit((c + 2 + 4 * p + 16 * a + 64 * z + 128 * s) as u8, 4) == (a == 1),
        !bit((c + 2 + 4 * p + 16 * a + 64 * z + 128 * s) as u8, 5),
        bit((c + 2 + 4 * p + 16 * a + 64 * z + 128 * s) as u8, 6) == (z == 1),
        bit((c + 2 + 4 * p + 16 * a + 64 * z + 128 * s) as u8, 7) == (s == 1),
{
}

impl Flags {
    /// The flags with zero, sign and parity taken from the result byte
    /// `val`; carry and auxiliary carry stay as they are.
    pub open spec fn with_result(self, val: u8) -> Flags {
        Flags { z: val == 0, s: val >= 0x80, p: even_parity(val), ..self }
    }

    /// The flags packed into one byte: bit 0 carry, bit 1 always set,
    /// bit 2 parity, bit 4 auxiliary carry, bit 6 zero, bit 7 sign; bits 3
    /// and 5 clear.
    pub open spec fn to_byte(self) -> u8 {
        ((if self.cy { 1int } else { 0 }) + 2 + (if self.p { 4int } else { 0 }) + (if self.ac {
            16int
        } else {
            0
        }) + (if self.z { 64int } else { 0 }) + (if self.s { 128int } else { 0 })) as u8
    }

    /// The flags that the packed byte `b` holds.
    pub open spec fn from_byte(b: u8) -> Flags {
        Flags { cy: bit(b, 0), p: bit(b, 2), ac: bit(b, 4), z: bit(b, 6), s: bit(b, 7) }
    }

    /// Unpacking a packed flag byte gives the flags back; in the packed byte
    /// bit 1 is set and bits 3 and 5 are clear.
    pub proof fn round_trip(self)
        ensures
            Flags::from_byte(self.to_byte()) == self,
            bit(self.to_byte(), 1),
            !bit(self.to_byte(), 3),
            !bit(self.to_byte(), 5),
    {
        let c: u8 = if self.cy { 1 } else { 0 };
        let p: u8 = if self.p { 1 } else { 0 };
        let a: u8 = if self.ac { 1 } else { 0 };
        let z: u8 = if self.z { 1 } else { 0 };
        let s: u8 = if self.s { 1 } else { 0 };
        packed_bits(c, p, a, z, s);
        assert(self.to_byte() == (c + 2 + 4 * p + 16 * a + 64 * z + 128 * s) as u8);
    }

    /// Packs the flags into one byte.
    pub fn pack(&self) -> (b: u8)
        ensures
            b == self.to_byte(),
            Flags::from_byte(b) == *self,
            bit(b, 1),
            !bit(b, 3),
            !bit(b, 5),
    {
        proof {
            self.round_trip();
        }
        let mut b: u8 = 2;
        if self.cy {
            b = b + 1;
        }
        if self.p {
            b = b + 4;
        }
        if self.ac {
            b = b + 16;
        }
        if self.z {
            b = b + 64;
        }
        if self.s {
            b = b + 128;
        }
        b
    }

    /// Reads the flags out of a packed byte.
    pub fn unpack(b: u8) -> (f: Flags)
        ensures
            f == Flags::from_byte(b),
    {
        Flags {
            cy: test_bit(b, 0),
            p: test_bit(b, 2),
            ac: test_bit(b, 4),
            z: test_bit(b, 6),
            s: test_bit(b, 7),
        }
    }
}

impl StateView {
    /// The state that a program image is loaded into: the image at the
    /// bottom of an otherwise zeroed memory, and every register and flag
    /// cleared.
    pub open spec fn loaded(image: Seq<u8>) -> StateView
        recommends
            image.len() <= MEMORY_SIZE,
    {
        StateView {
            a: 0,
            b: 0,
            c: 0,
            d: 0,
            e: 0,
            h: 0,
            l: 0,
            sp: 0,
            pc: 0,
            memory: Seq::new(
                MEMORY_SIZE as nat,
                |i: int|
                    if i < image.len() {
                        image[i]
                    } else {
                        0u8
                    },
            ),
            flags: Flags { z: false, s: false, p: false, cy: false, ac: false },
        }
    }

    /// The model is well formed when its memory covers the whole address
    /// space.
    pub open spec fn wf(self) -> bool {
        self.memory.len() == MEMORY_SIZE
    }

    /// The byte at `addr`.
    pub open spec fn load(self, addr: u16) -> u8 {
        self.memory[addr as int]
    }

    /// The state with `val` stored at `addr`.
    pub open spec fn store(self, addr: u16, val: u8) -> StateView {
        StateView { memory: self.memory.update(addr as int, val), ..self }
    }

    /// The 16-bit value of a register pair: the first register of the pair
    /// is the upper byte.
    pub open spec fn pair(self, reg: Register) -> u16
        recommends
            reg.is_pair(),
    {
        match reg {
            Register::Bc => word(self.b, self.c),
            Register::De => word(self.d, self.e),
            _ => word(self.h, self.l),
        }
    }

    /// The state with a register pair set to `value`.
    pub open spec fn with_pair(self, reg: Register, value: u16) -> StateView
        recommends
            reg.is_pair(),
    {
        match reg {
            Register::Bc => StateView { b: high_byte(value), c: low_byte(value), ..self },
            Register::De => StateView { d: high_byte(value), e: low_byte(value), ..self },
            _ => StateView { h: high_byte(value), l: low_byte(value), ..self },
        }
    }

    /// The byte that an operand stands for: the register itself, or for a
    /// pair the byte in memory at the pair's value.
    pub open spec fn reg(self, reg: Register) -> u8 {
        match reg {
            Register::A => self.a,
            Register::B => self.b,
            Register::C => self.c,
            Register::D => self.d,
            Register::E => self.e,
            Register::H => self.h,
            Register::L => self.l,
            Register::Hl => self.load(self.pair(Register::Hl)),
            Register::Bc => self.load(self.pair(Register::Bc)),
            Register::De => self.load(self.pair(Register::De)),
        }
    }

    /// The state with `value` written to an operand: to the register
    /// itself, or for a pair to memory at the pair's value.
    pub open spec fn with_reg(self, reg: Register, value: u8) -> StateView {
        match reg {
            Register::A => StateView { a: value, ..self },
            Register::B => StateView { b: value, ..self },
            Register::C => StateView { c: value, ..self },
            Register::D => StateView { d: value, ..self },
            Register::E => StateView { e: value, ..self },
            Register::H => StateView { h: value, ..self },
            Register::L => StateView { l: value, ..self },
            Register::Hl => self.store(self.pair(Register::Hl), value),
            Register::Bc => self.store(self.pair(Register::Bc), value),
            Register::De => self.store(self.pair(Register::De), value),
        }
    }

    /// The word on top of the stack: its lower byte at the stack pointer,
    /// its upper byte one above.
    pub open spec fn stack_top(self) -> u16 {
        word(self.load(wrap16(self.sp + 1)), self.load(self.sp))
    }

    /// The state after pushing two bytes: `high` goes one below the stack
    /// pointer, `low` two below, and the stack pointer drops by two.
    pub open spec fn pushed(self, high: u8, low: u8) -> StateView {
        StateView {
            sp: wrap16(self.sp - 2),
            ..self.store(wrap16(self.sp - 1), high).store(wrap16(self.sp - 2), low)
        }
    }

    /// The state after dropping the word on top of the stack.
    pub open spec fn popped(self) -> StateView {
        StateView { sp: wrap16(self.sp + 2), ..self }
    }
}

impl View for State {
    type V = StateView;

    open spec fn view(&self) -> StateView {
        StateView {
            a: self.a,
            b: self.b,
            c: self.c,
            d: self.d,
            e: self.e,
            h: self.h,
            l: self.l,
            sp: self.sp,
            pc: self.pc,
            memory: self.memory@,
            flags: self.flags,
        }
    }
}

impl State {
    /// A state is well formed when its memory covers the whole address
    /// space, so that no load or store can fall outside it.
    pub open spec fn wf(&self) -> bool {
        self.memory.len() == MEMORY_SIZE
    }

    /// A state with every register and flag cleared and `image` copied to
    /// the bottom of an otherwise zeroed memory.
    pub fn new(image: &Vec<u8>) -> (state: State)
        requires
            image.len() <= MEMORY_SIZE,
        ensures
            state.wf(),
            state@ == StateView::loaded(image@),
    {
        let mut memory: Vec<u8> = vec![0u8; MEMORY_SIZE];
        let mut i: usize = 0;
        while i < image.len()
            invariant
                i <= image.len() <= MEMORY_SIZE,
                memory.len() == MEMORY_SIZE,
                forall|j: int| 0 <= j < i ==> memory[j] == image[j],
                forall|j: int| i <= j < MEMORY_SIZE ==> memory[j] == 0,
            decreases image.len() - i,
        {
            memory.set(i, image[i]);
            i = i + 1;
        }
        assert(memory@ =~= StateView::loaded(image@).memory);
        State {
            a: 0,
            b: 0,
            c: 0,
            d: 0,
            e: 0,
            h: 0,
            l: 0,
            sp: 0,
            pc: 0,
            memory,
            flags: Flags { z: false, s: false, p: false, cy: false, ac: false },
        }
    }

    /// Reads the byte at `addr`.
    pub fn load(&self, addr: u16) -> (val: u8)
        requires
            self.wf(),
        ensures
            val == self@.load(addr),
    {
        self.memory[addr as usize]
    }

    /// Writes `val` at `addr`.
    pub fn store(&mut self, addr: u16, val: u8)
        requires
            old(self).wf(),
        ensures
            final(self).wf(),
            final(self)@ == old(self)@.store(addr, val),
    {
        self.memory.set(addr as usize, val);
    }

    /// Sets a register pair to `value`.
    pub fn set_register_16(&mut self, reg: &Register, value: u16)
        requires
            reg.is_pair(),
        ensures
            final(self)@ == old(self)@.with_pair(*reg, value),
            final(self).wf() == old(self).wf(),
    {
        let (high, low) = split_word(value);
        match reg {
            Register::Bc => {
                self.b = high;
                self.c = low;
            },
            Register::De => {
                self.d = high;
                self.e = low;
            },
            _ => {
                self.h = high;
                self.l = low;
            },
        }
    }

    /// The 16-bit value of a register pair.
    pub fn get_register_16(&self, reg: &Register) -> (value: u16)
        requires
            reg.is_pair(),
        ensures
            value == self@.pair(*reg),
    {
        match reg {
            Register::Bc => make_word(self.b, self.c),
            Register::De => make_word(self.d, self.e),
            _ => make_word(self.h, self.l),
        }
    }

    /// Writes `value` to an operand: to the register itself, or for a pair
    /// to memory at the pair's value.
    pub fn set_register(&mut self, reg: &Register, value: u8)
        requires
            old(self).wf(),
        ensures
            final(self).wf(),
            final(self)@ == old(self)@.with_reg(*reg, value),
    {
        match reg {
            Register::A => self.a = value,
            Register::B => self.b = value,
            Register::C => self.c = value,
            Register::D => self.d = value,
            Register::E => self.e = value,
            Register::H => self.h = value,
            Register::L => self.l = value,
            Register::Hl => {
                let addr = make_word(self.h, self.l);
                self.store(addr, value)
            },
            Register::Bc => {
                let addr = make_word(self.b, self.c);
                self.store(addr, value)
            },
            Register::De => {
                let addr = make_word(self.d, self.e);
                self.store(addr, value)
            },
        }
    }

    /// Reads the byte that an operand stands for: the register itself, or
    /// for a pair the byte in memory at the pair's value.
    pub fn get_register(&self, reg: &Register) -> (value: u8)
        requires
            self.wf(),
        ensures
            value == self@.reg(*reg),
    {
        match reg {
            Register::A => self.a,
            Register::B => self.b,
            Register::C => self.c,
            Register::D => self.d,
            Register::E => self.e,
            Register::H => self.h,
            Register::L => self.l,
            Register::Hl => self.load(make_word(self.h, self.l)),
            Register::Bc => self.load(make_word(self.b, self.c)),
            Register::De => self.load(make_word(self.d, self.e)),
        }
    }

    /// Pushes two bytes: `high` goes one below the stack pointer, `low` two
    /// below, and the stack pointer drops by two, wrapping at the bottom of
    /// the address space.
    pub fn push(&mut self, high: u8, low: u8)
        requires
            old(self).wf(),
        ensures
            final(self).wf(),
            final(self)@ == old(self)@.pushed(high, low),
    {
        let high_at = sub16(self.sp, 1);
        let low_at = sub16(self.sp, 2);
        self.store(high_at, high);
        self.store(low_at, low);
        self.sp = low_at;
    }

    /// Pops the word on top of the stack: the stack pointer rises by two,
    /// wrapping at the top of the address space.
    pub fn pop(&mut self) -> (bytes: (u8, u8))
        requires
            old(self).wf(),
        ensures
            final(self).wf(),
            final(self)@ == old(self)@.popped(),
            bytes.0 == old(self)@.load(wrap16(old(self)@.sp + 1)),
            bytes.1 == old(self)@.load(old(self)@.sp),
            word(bytes.0, bytes.1) == old(self)@.stack_top(),
    {
        let low = self.load(self.sp);
        let high = self.load(add16(self.sp, 1));
        self.sp = add16(self.sp, 2);
        (high, low)
    }

    /// Sets zero, sign and parity from the result byte `val`.
    pub fn set_flags(&mut self, val: u8)
        ensures
            final(self)@ == (StateView {
                flags: old(self)@.flags.with_result(val),
                ..old(self)@
            }),
            final(self).wf() == old(self).wf(),
    {
        self.flags.z = val == 0;
        self.flags.s = val >= 0x80;
        self.flags.p = parity(val) == 1;
    }
}

} // verus!
