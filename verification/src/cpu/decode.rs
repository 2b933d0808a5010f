//! The instruction decoder: from the bytes at the program counter to a
//! decoded instruction, or to the opcode byte that names none.

use vstd::prelude::*;
use crate::cpu::bits::{make_word, word};
use crate::cpu::op::Op;
use crate::cpu::state::{Register, State, StateView, MEMORY_SIZE};

verus! {

/// The operand that a three-bit register field names: 0 to 5 are B, C, D,
/// E, H and L, 6 is the byte in memory at HL, 7 is the accumulator.
pub open spec fn operand(field: int) -> Register {
    if field == 0 {
        Register::B
    } else if field == 1 {
        Register::C
    } else if field == 2 {
        Register::D
    } else if field == 3 {
        Register::E
    } else if field == 4 {
        Register::H
    } else if field == 5 {
        Register::L
    } else if field == 6 {
        Register::Hl
    } else {
        Register::A
    }
}

/// The register pair that a two-bit pair field names: BC, DE, then HL.
pub open spec fn pair_operand(field: int) -> Register {
    if field == 0 {
        Register::Bc
    } else if field == 1 {
        Register::De
    } else {
        Register::Hl
    }
}

/// Opcodes `0x40..0x80`: a move from the operand in bits 0 to 2 to the
/// operand in bits 3 to 5. Three encodings of that block name no
/// instruction: `0x76`, `0x6d` and `0x7f`.
pub open spec fn decode_move(opcode: u8) -> Result<Op, u8> {
    if opcode == 0x76 || opcode == 0x6d || opcode == 0x7f {
        Err(opcode)
    } else {
        Ok(Op::Mov(operand((opcode - 0x40) / 8), operand((opcode % 8) as int)))
    }
}

/// Opcodes `0x80..0xc0`: an operation of the accumulator with the operand in
/// bits 0 to 2; bits 3 to 5 select the operation.
pub open spec fn decode_accumulator(opcode: u8) -> Op {
    let reg = operand((opcode % 8) as int);
    let operation = (opcode - 0x80) / 8;
    if operation == 0 {
        Op::Add(reg)
    } else if operation == 1 {
        Op::Adc(reg)
    } else if operation == 2 {
        Op::Sub(reg)
    } else if operation == 3 {
        Op::Sbb(reg)
    } else if operation == 4 {
        Op::Ana(reg)
    } else if operation == 5 {
        Op::Xra(reg)
    } else if operation == 6 {
        Op::Ora(reg)
    } else {
        Op::Cmp(reg)
    }
}

/// Opcodes below `0x40`: bits 0 to 2 select the group, bits 3 to 5 its
/// operand. `low` and `high` are the two bytes that follow the opcode.
pub open spec fn decode_low(opcode: u8, low: u8, high: u8) -> Result<Op, u8> {
    let group = opcode % 8;
    let field = (opcode / 8) as int;
    let addr = word(high, low);
    if group == 4 {
        Ok(Op::Incr(operand(field)))
    } else if group == 5 {
        Ok(Op::Decr(operand(field)))
    } else if group == 6 {
        Ok(Op::Mvi(operand(field), low))
    } else if group == 1 {
        if field == 0 {
            Ok(Op::Lxi(Register::B, Register::C, low, high))
        } else if field == 2 {
            Ok(Op::Lxi(Register::D, Register::E, low, high))
        } else if field == 4 {
            Ok(Op::Lxi(Register::H, Register::L, low, high))
        } else if field == 6 {
            Ok(Op::LxiSp(low, high))
        } else if field == 7 {
            Ok(Op::DadSp)
        } else {
            Ok(Op::Dad(pair_operand(field / 2)))
        }
    } else if group == 3 {
        if field == 6 {
            Ok(Op::InxSp)
        } else if field == 7 {
            Ok(Op::DcxSp)
        } else if field % 2 == 0 {
            Ok(Op::Inx(pair_operand(field / 2)))
        } else {
            Ok(Op::Dcx(pair_operand(field / 2)))
        }
    } else if group == 2 {
        if field == 0 {
            Ok(Op::Stax(Register::Bc))
        } else if field == 1 {
            Ok(Op::Ldax(Register::Bc))
        } else if field == 2 {
            Ok(Op::Stax(Register::De))
        } else if field == 3 {
            Ok(Op::Ldax(Register::De))
        } else if field == 4 {
            Ok(Op::Shld(addr))
        } else if field == 5 {
            Ok(Op::Lhld(addr))
        } else if field == 6 {
            Ok(Op::Sta(addr))
        } else {
            Ok(Op::Lda(addr))
        }
    } else if group == 7 {
        if field == 0 {
            Ok(Op::Rlc)
        } else if field == 1 {
            Ok(Op::Rrc)
        } else if field == 2 {
            Ok(Op::Ral)
        } else if field == 3 {
            Ok(Op::Rar)
        } else if field == 4 {
            Ok(Op::Daa)
        } else if field == 5 {
            Ok(Op::Cma)
        } else if field == 6 {
            Ok(Op::Stc)
        } else {
            Ok(Op::Cmc)
        }
    } else if opcode == 0 {
        Ok(Op::Nop)
    } else {
        Err(opcode)
    }
}

/// Opcodes from `0xc0`: bits 0 to 2 select the group; in the conditional
/// groups bits 3 to 5 select the condition, in the order not-zero, zero,
/// no-carry, carry, odd parity, even parity, plus, minus.
pub open spec fn decode_high(opcode: u8, low: u8, high: u8) -> Result<Op, u8> {
    let group = opcode % 8;
    let field = (opcode - 0xc0) / 8;
    let addr = word(high, low);
    if group == 0 {
        Ok(
            if field == 0 {
                Op::Rnz
            } else if field == 1 {
                Op::Rz
            } else if field == 2 {
                Op::Rnc
            } else if field == 3 {
                Op::Rc
            } else if field == 4 {
                Op::Rpo
            } else if field == 5 {
                Op::Rpe
            } else if field == 6 {
                Op::Rp
            } else {
                Op::Rm
            },
        )
    } else if group == 2 {
        Ok(
            if field == 0 {
                Op::Jnz(addr)
            } else if field == 1 {
                Op::Jz(addr)
            } else if field == 2 {
                Op::Jnc(addr)
            } else if field == 3 {
                Op::Jc(addr)
            } else if field == 4 {
                Op::Jpo(addr)
            } else if field == 5 {
                Op::Jpe(addr)
            } else if field == 6 {
                Op::Jp(addr)
            } else {
                Op::Jm(addr)
            },
        )
    } else if group == 4 {
        Ok(
            if field == 0 {
                Op::Cnz(addr)
            } else if field == 1 {
                Op::Cz(addr)
            } else if field == 2 {
                Op::Cnc(addr)
            } else if field == 3 {
                Op::Cc(addr)
            } else if field == 4 {
                Op::Cpo(addr)
            } else if field == 5 {
                Op::Cpe(addr)
            } else if field == 6 {
                Op::Cp(addr)
            } else {
                Op::Cm(addr)
            },
        )
    } else if group == 6 {
        Ok(
            if field == 0 {
                Op::Adi(low)
            } else if field == 1 {
                Op::Aci(low)
            } else if field == 2 {
                Op::Sui(low)
            } else if field == 3 {
                Op::Sbi(low)
            } else if field == 4 {
                Op::Ani(low)
            } else if field == 5 {
                Op::Xri(low)
            } else if field == 6 {
                Op::Ori(low)
            } else {
                Op::Cpi(low)
            },
        )
    } else if group == 1 {
        if field == 0 {
            Ok(Op::Pop(Register::B, Register::C))
        } else if field == 2 {
            Ok(Op::Pop(Register::D, Register::E))
        } else if field == 4 {
            Ok(Op::Pop(Register::H, Register::L))
        } else if field == 6 {
            Ok(Op::PopPsw)
        } else if field == 1 {
            Ok(Op::Ret)
        } else if field == 5 {
            Ok(Op::Pchl)
        } else if field == 7 {
            Ok(Op::Sphl)
        } else {
            Err(opcode)
        }
    } else if group == 5 {
        if field == 0 {
            Ok(Op::Push(Register::B, Register::C))
        } else if field == 2 {
            Ok(Op::Push(Register::D, Register::E))
        } else if field == 4 {
            Ok(Op::Push(Register::H, Register::L))
        } else if field == 6 {
            Ok(Op::PushPsw)
        } else if field == 1 {
            Ok(Op::Call(addr))
        } else {
            Err(opcode)
        }
    } else if group == 3 {
        if field == 0 {
            Ok(Op::Jmp(addr))
        } else if field == 2 {
            Ok(Op::Out(low))
        } else if field == 3 {
            Ok(Op::In(low))
        } else if field == 4 {
            Ok(Op::Xthl)
        } else if field == 5 {
            Ok(Op::Xchg)
        } else if field == 6 {
            Ok(Op::Di)
        } else if field == 7 {
            Ok(Op::Ei)
        } else {
            Err(opcode)
        }
    } else {
        Err(opcode)
    }
}

/// The instruction that `opcode` encodes, followed in memory by the bytes
/// `low` and `high`; or `Err(opcode)` where the byte names no instruction.
pub open spec fn decode_spec(opcode: u8, low: u8, high: u8) -> Result<Op, u8> {
    if opcode < 0x40 {
        decode_low(opcode, low, high)
    } else if opcode < 0x80 {
        decode_move(opcode)
    } else if opcode < 0xc0 {
        Ok(decode_accumulator(opcode))
    } else {
        decode_high(opcode, low, high)
    }
}

/// The byte `offset` places after the program counter; beyond the end of
/// memory it reads as zero.
pub open spec fn byte_after_pc(s: StateView, offset: int) -> u8 {
    if s.pc + offset < s.memory.len() {
        s.memory[s.pc + offset]
    } else {
        0
    }
}

/// The instruction at the program counter.
pub open spec fn fetch(s: StateView) -> Result<Op, u8> {
    decode_spec(byte_after_pc(s, 0), byte_after_pc(s, 1), byte_after_pc(s, 2))
}

/// Decodes one instruction from its opcode and the two bytes that follow it
/// in memory, `low` first. An opcode that names no instruction comes back as
/// the error.
pub fn decode(opcode: u8, low: u8, high: u8) -> (r: Result<Op, u8>)
    ensures
        r == decode_spec(opcode, low, high),
        r matches Ok(op) ==> op.well_formed(),
        r matches Err(byte) ==> byte == opcode,
{
    let addr = make_word(high, low);
    match opcode {
        0x00 => Ok(Op::Nop),
        0x01 => Ok(Op::Lxi(Register::B, Register::C, low, high)),
        0x02 => Ok(Op::Stax(Register::Bc)),
        0x03 => Ok(Op::Inx(Register::Bc)),
        0x04 => Ok(Op::Incr(Register::B)),
        0x05 => Ok(Op::Decr(Register::B)),
        0x06 => Ok(Op::Mvi(Register::B, low)),
        0x07 => Ok(Op::Rlc),
        0x09 => Ok(Op::Dad(Register::Bc)),
        0x0a => Ok(Op::Ldax(Register::Bc)),
        0x0b => Ok(Op::Dcx(Register::Bc)),
        0x0c => Ok(Op::Incr(Register::C)),
        0x0d => Ok(Op::Decr(Register::C)),
        0x0e => Ok(Op::Mvi(Register::C, low)),
        0x0f => Ok(Op::Rrc),
        0x11 => Ok(Op::Lxi(Register::D, Register::E, low, high)),
        0x12 => Ok(Op::Stax(Register::De)),
        0x13 => Ok(Op::Inx(Register::De)),
        0x14 => Ok(Op::Incr(Register::D)),
        0x15 => Ok(Op::Decr(Register::D)),
        0x16 => Ok(Op::Mvi(Register::D, low)),
        0x17 => Ok(Op::Ral),
        0x19 => Ok(Op::Dad(Register::De)),
        0x1a => Ok(Op::Ldax(Register::De)),
        0x1b => Ok(Op::Dcx(Register::De)),
        0x1c => Ok(Op::Incr(Register::E)),
        0x1d => Ok(Op::Decr(Register::E)),
        0x1e => Ok(Op::Mvi(Register::E, low)),
        0x1f => Ok(Op::Rar),
        0x21 => Ok(Op::Lxi(Register::H, Register::L, low, high)),
        0x22 => Ok(Op::Shld(addr)),
        0x23 => Ok(Op::Inx(Register::Hl)),
        0x24 => Ok(Op::Incr(Register::H)),
        0x25 => Ok(Op::Decr(Register::H)),
        0x26 => Ok(Op::Mvi(Register::H, low)),
        0x27 => Ok(Op::Daa),
        0x29 => Ok(Op::Dad(Register::Hl)),
        0x2a => Ok(Op::Lhld(addr)),
        0x2b => Ok(Op::Dcx(Register::Hl)),
        0x2c => Ok(Op::Incr(Register::L)),
        0x2d => Ok(Op::Decr(Register::L)),
        0x2e => Ok(Op::Mvi(Register::L, low)),
        0x2f => Ok(Op::Cma),
        0x31 => Ok(Op::LxiSp(low, high)),
        0x32 => Ok(Op::Sta(addr)),
        0x33 => Ok(Op::InxSp),
        0x34 => Ok(Op::Incr(Register::Hl)),
        0x35 => Ok(Op::Decr(Register::Hl)),
        0x36 => Ok(Op::Mvi(Register::Hl, low)),
        0x37 => Ok(Op::Stc),
        0x39 => Ok(Op::DadSp),
        0x3a => Ok(Op::Lda(addr)),
        0x3b => Ok(Op::DcxSp),
        0x3c => Ok(Op::Incr(Register::A)),
        0x3d => Ok(Op::Decr(Register::A)),
        0x3e => Ok(Op::Mvi(Register::A, low)),
        0x3f => Ok(Op::Cmc),
        0x40 => Ok(Op::Mov(Register::B, Register::B)),
        0x41 => Ok(Op::Mov(Register::B, Register::C)),
        0x42 => Ok(Op::Mov(Register::B, Register::D)),
        0x43 => Ok(Op::Mov(Register::B, Register::E)),
        0x44 => Ok(Op::Mov(Register::B, Register::H)),
        0x45 => Ok(Op::Mov(Register::B, Register::L)),
        0x46 => Ok(Op::Mov(Register::B, Register::Hl)),
        0x47 => Ok(Op::Mov(Register::B, Register::A)),
        0x48 => Ok(Op::Mov(Register::C, Register::B)),
        0x49 => Ok(Op::Mov(Register::C, Register::C)),
        0x4a => Ok(Op::Mov(Register::C, Register::D)),
        0x4b => Ok(Op::Mov(Register::C, Register::E)),
        0x4c => Ok(Op::Mov(Register::C, Register::H)),
        0x4d => Ok(Op::Mov(Register::C, Register::L)),
        0x4e => Ok(Op::Mov(Register::C, Register::Hl)),
        0x4f => Ok(Op::Mov(Register::C, Register::A)),
        0x50 => Ok(Op::Mov(Register::D, Register::B)),
        0x51 => Ok(Op::Mov(Register::D, Register::C)),
        0x52 => Ok(Op::Mov(Register::D, Register::D)),
        0x53 => Ok(Op::Mov(Register::D, Register::E)),
        0x54 => Ok(Op::Mov(Register::D, Register::H)),
        0x55 => Ok(Op::Mov(Register::D, Register::L)),
        0x56 => Ok(Op::Mov(Register::D, Register::Hl)),
        0x57 => Ok(Op::Mov(Register::D, Register::A)),
        0x58 => Ok(Op::Mov(Register::E, Register::B)),
        0x59 => Ok(Op::Mov(Register::E, Register::C)),
        0x5a => Ok(Op::Mov(Register::E, Register::D)),
        0x5b => Ok(Op::Mov(Register::E, Register::E)),
        0x5c => Ok(Op::Mov(Register::E, Register::H)),
        0x5d => Ok(Op::Mov(Register::E, Register::L)),
        0x5e => Ok(Op::Mov(Register::E, Register::Hl)),
        0x5f => Ok(Op::Mov(Register::E, Register::A)),
        0x60 => Ok(Op::Mov(Register::H, Register::B)),
        0x61 => Ok(Op::Mov(Register::H, Register::C)),
        0x62 => Ok(Op::Mov(Register::H, Register::D)),
        0x63 => Ok(Op::Mov(Register::H, Register::E)),
        0x64 => Ok(Op::Mov(Register::H, Register::H)),
        0x65 => Ok(Op::Mov(Register::H, Register::L)),
        0x66 => Ok(Op::Mov(Register::H, Register::Hl)),
        0x67 => Ok(Op::Mov(Register::H, Register::A)),
        0x68 => Ok(Op::Mov(Register::L, Register::B)),
        0x69 => Ok(Op::Mov(Register::L, Register::C)),
        0x6a => Ok(Op::Mov(Register::L, Register::D)),
        0x6b => Ok(Op::Mov(Register::L, Register::E)),
        0x6c => Ok(Op::Mov(Register::L, Register::H)),
        0x6e => Ok(Op::Mov(Register::L, Register::Hl)),
        0x6f => Ok(Op::Mov(Register::L, Register::A)),
        0x70 => Ok(Op::Mov(Register::Hl, Register::B)),
        0x71 => Ok(Op::Mov(Register::Hl, Register::C)),
        0x72 => Ok(Op::Mov(Register::Hl, Register::D)),
        0x73 => Ok(Op::Mov(Register::Hl, Register::E)),
        0x74 => Ok(Op::Mov(Register::Hl, Register::H)),
        0x75 => Ok(Op::Mov(Register::Hl, Register::L)),
        0x77 => Ok(Op::Mov(Register::Hl, Register::A)),
        0x78 => Ok(Op::Mov(Register::A, Register::B)),
        0x79 => Ok(Op::Mov(Register::A, Register::C)),
        0x7a => Ok(Op::Mov(Register::A, Register::D)),
        0x7b => Ok(Op::Mov(Register::A, Register::E)),
        0x7c => Ok(Op::Mov(Register::A, Register::H)),
        0x7d => Ok(Op::Mov(Register::A, Register::L)),
        0x7e => Ok(Op::Mov(Register::A, Register::Hl)),
        0x80 => Ok(Op::Add(Register::B)),
        0x81 => Ok(Op::Add(Register::C)),
        0x82 => Ok(Op::Add(Register::D)),
        0x83 => Ok(Op::Add(Register::E)),
        0x84 => Ok(Op::Add(Register::H)),
        0x85 => Ok(Op::Add(Register::L)),
        0x86 => Ok(Op::Add(Register::Hl)),
        0x87 => Ok(Op::Add(Register::A)),
        0x88 => Ok(Op::Adc(Register::B)),
        0x89 => Ok(Op::Adc(Register::C)),
        0x8a => Ok(Op::Adc(Register::D)),
        0x8b => Ok(Op::Adc(Register::E)),
        0x8c => Ok(Op::Adc(Register::H)),
        0x8d => Ok(Op::Adc(Register::L)),
        0x8e => Ok(Op::Adc(Register::Hl)),
        0x8f => Ok(Op::Adc(Register::A)),
        0x90 => Ok(Op::Sub(Register::B)),
        0x91 => Ok(Op::Sub(Register::C)),
        0x92 => Ok(Op::Sub(Register::D)),
        0x93 => Ok(Op::Sub(Register::E)),
        0x94 => Ok(Op::Sub(Register::H)),
        0x95 => Ok(Op::Sub(Register::L)),
        0x96 => Ok(Op::Sub(Register::Hl)),
        0x97 => Ok(Op::Sub(Register::A)),
        0x98 => Ok(Op::Sbb(Register::B)),
        0x99 => Ok(Op::Sbb(Register::C)),
        0x9a => Ok(Op::Sbb(Register::D)),
        0x9b => Ok(Op::Sbb(Register::E)),
        0x9c => Ok(Op::Sbb(Register::H)),
        0x9d => Ok(Op::Sbb(Register::L)),
        0x9e => Ok(Op::Sbb(Register::Hl)),
        0x9f => Ok(Op::Sbb(Register::A)),
        0xa0 => Ok(Op::Ana(Register::B)),
        0xa1 => Ok(Op::Ana(Register::C)),
        0xa2 => Ok(Op::Ana(Register::D)),
        0xa3 => Ok(Op::Ana(Register::E)),
        0xa4 => Ok(Op::Ana(Register::H)),
        0xa5 => Ok(Op::Ana(Register::L)),
        0xa6 => Ok(Op::Ana(Register::Hl)),
        0xa7 => Ok(Op::Ana(Register::A)),
        0xa8 => Ok(Op::Xra(Register::B)),
        0xa9 => Ok(Op::Xra(Register::C)),
        0xaa => Ok(Op::Xra(Register::D)),
        0xab => Ok(Op::Xra(Register::E)),
        0xac => Ok(Op::Xra(Register::H)),
        0xad => Ok(Op::Xra(Register::L)),
        0xae => Ok(Op::Xra(Register::Hl)),
        0xaf => Ok(Op::Xra(Register::A)),
        0xb0 => Ok(Op::Ora(Register::B)),
        0xb1 => Ok(Op::Ora(Register::C)),
        0xb2 => Ok(Op::Ora(Register::D)),
        0xb3 => Ok(Op::Ora(Register::E)),
        0xb4 => Ok(Op::Ora(Register::H)),
        0xb5 => Ok(Op::Ora(Register::L)),
        0xb6 => Ok(Op::Ora(Register::Hl)),
        0xb7 => Ok(Op::Ora(Register::A)),
        0xb8 => Ok(Op::Cmp(Register::B)),
        0xb9 => Ok(Op::Cmp(Register::C)),
        0xba => Ok(Op::Cmp(Register::D)),
        0xbb => Ok(Op::Cmp(Register::E)),
        0xbc => Ok(Op::Cmp(Register::H)),
        0xbd => Ok(Op::Cmp(Register::L)),
        0xbe => Ok(Op::Cmp(Register::Hl)),
        0xbf => Ok(Op::Cmp(Register::A)),
        0xc0 => Ok(Op::Rnz),
        0xc1 => Ok(Op::Pop(Register::B, Register::C)),
        0xc2 => Ok(Op::Jnz(addr)),
        0xc3 => Ok(Op::Jmp(addr)),
        0xc4 => Ok(Op::Cnz(addr)),
        0xc5 => Ok(Op::Push(Register::B, Register::C)),
        0xc6 => Ok(Op::Adi(low)),
        0xc8 => Ok(Op::Rz),
        0xc9 => Ok(Op::Ret),
        0xca => Ok(Op::Jz(addr)),
        0xcc => Ok(Op::Cz(addr)),
        0xcd => Ok(Op::Call(addr)),
        0xce => Ok(Op::Aci(low)),
        0xd0 => Ok(Op::Rnc),
        0xd1 => Ok(Op::Pop(Register::D, Register::E)),
        0xd2 => Ok(Op::Jnc(addr)),
        0xd3 => Ok(Op::Out(low)),
        0xd4 => Ok(Op::Cnc(addr)),
        0xd5 => Ok(Op::Push(Register::D, Register::E)),
        0xd6 => Ok(Op::Sui(low)),
        0xd8 => Ok(Op::Rc),
        0xda => Ok(Op::Jc(addr)),
        0xdb => Ok(Op::In(low)),
        0xdc => Ok(Op::Cc(addr)),
        0xde => Ok(Op::Sbi(low)),
        0xe0 => Ok(Op::Rpo),
        0xe1 => Ok(Op::Pop(Register::H, Register::L)),
        0xe2 => Ok(Op::Jpo(addr)),
        0xe3 => Ok(Op::Xthl),
        0xe4 => Ok(Op::Cpo(addr)),
        0xe5 => Ok(Op::Push(Register::H, Register::L)),
        0xe6 => Ok(Op::Ani(low)),
        0xe8 => Ok(Op::Rpe),
        0xe9 => Ok(Op::Pchl),
        0xea => Ok(Op::Jpe(addr)),
        0xeb => Ok(Op::Xchg),
        0xec => Ok(Op::Cpe(addr)),
        0xee => Ok(Op::Xri(low)),
        0xf0 => Ok(Op::Rp),
        0xf1 => Ok(Op::PopPsw),
        0xf2 => Ok(Op::Jp(addr)),
        0xf3 => Ok(Op::Di),
        0xf4 => Ok(Op::Cp(addr)),
        0xf5 => Ok(Op::PushPsw),
        0xf6 => Ok(Op::Ori(low)),
        0xf8 => Ok(Op::Rm),
        0xf9 => Ok(Op::Sphl),
        0xfa => Ok(Op::Jm(addr)),
        0xfb => Ok(Op::Ei),
        0xfc => Ok(Op::Cm(addr)),
        0xfe => Ok(Op::Cpi(low)),
        _ => Err(opcode),
    }
}

impl State {
    /// Decodes the instruction at the program counter. Operand bytes past
    /// the end of memory read as zero.
    pub fn read_next_op(&self) -> (r: Result<Op, u8>)
        requires
            self.wf(),
        ensures
            r == fetch(self@),
            r matches Ok(op) ==> op.well_formed(),
            r matches Err(byte) ==> byte == self@.load(self@.pc),
    {
        let at: usize = self.pc as usize;
        let opcode = self.memory[at];
        let low = if at + 1 < MEMORY_SIZE {
            self.memory[at + 1]
        } else {
            0
        };
        let high = if at + 2 < MEMORY_SIZE {
            self.memory[at + 2]
        } else {
            0
        };
        decode(opcode, low, high)
    }
}

} // verus!
