//! The decoded instruction.

use vstd::prelude::*;
use crate::cpu::state::Register;

verus! {

/// One decoded instruction with the immediate operands it carries.
///
/// A 16-bit operand is held as the address it stands for; the two bytes of
/// `Lxi` and `LxiSp` are held in the order in which they follow the opcode,
/// lower byte first.
#[derive(Clone, Copy, Debug, PartialEq, Eq, Structural)]
pub enum Op {
    Nop,
    Incr(Register),
    Decr(Register),
    Add(Register),
    Sub(Register),
    Ana(Register),
    Xra(Register),
    Ora(Register),
    Mov(Register, Register),
    Cmp(Register),
    Adc(Register),
    Sbb(Register),
    Lxi(Register, Register, u8, u8),
    LxiSp(u8, u8),
    Dad(Register),
    Mvi(Register, u8),
    Stax(Register),
    Inx(Register),
    Dcx(Register),
    Ldax(Register),
    Push(Register, Register),
    Pop(Register, Register),
    Rlc,
    Rrc,
    Ral,
    Rar,
    Shld(u16),
    Lhld(u16),
    Cma,
    Sta(u16),
    InxSp,
    Stc,
    DadSp,
    Lda(u16),
    DcxSp,
    Cmc,
    Rnz,
    Jnz(u16),
    Jmp(u16),
    Cnz(u16),
    Adi(u8),
    Rz,
    Ret,
    Jz(u16),
    Cz(u16),
    Call(u16),
    Aci(u8),
    Rnc,
    Jnc(u16),
    Cnc(u16),
    Sui(u8),
    Rc,
    Jc(u16),
    Cc(u16),
    Sbi(u8),
    Rpo,
    Jpo(u16),
    Xthl,
    Cpo(u16),
    Ani(u8),
    Rpe,
    Pchl,
    Jpe(u16),
    Xchg,
    Cpe(u16),
    Xri(u8),
    Rp,
    Out(u8),
    PopPsw,
    Jp(u16),
    Cp(u16),
    PushPsw,
    Ori(u8),
    Rm,
    Sphl,
    Jm(u16),
    Ei,
    Cm(u16),
    Cpi(u8),
    In(u8),
    Di,
    Daa,
}

/// The families of instructions, by what they work on.
#[derive(Clone, Copy, Debug, PartialEq, Eq, Structural)]
pub enum Family {
    /// Operations that set zero, sign and parity from their result.
    Arithmetic,
    /// Operations on registers and flags alone.
    Register,
    /// Moves between registers and memory.
    Transfer,
    /// Pushes, pops and exchanges with the top of the stack.
    Stack,
    /// Jumps, calls and returns.
    Control,
}

impl Op {
    /// The family that the instruction belongs to.
    pub open spec fn family(self) -> Family {
        match self {
            Op::Incr(_)
            | Op::Decr(_)
            | Op::Add(_)
            | Op::Sub(_)
            | Op::Ana(_)
            | Op::Xra(_)
            | Op::Ora(_)
            | Op::Cmp(_)
            | Op::Adc(_)
            | Op::Sbb(_)
            | Op::Adi(_)
            | Op::Aci(_)
            | Op::Sui(_)
            | Op::Sbi(_)
            | Op::Ani(_)
            | Op::Xri(_)
            | Op::Ori(_)
            | Op::Cpi(_)
            | Op::Daa => Family::Arithmetic,
            Op::Rlc
            | Op::Rrc
            | Op::Ral
            | Op::Rar
            | Op::Cma
            | Op::Stc
            | Op::Cmc
            | Op::Dad(_)
            | Op::DadSp
            | Op::Inx(_)
            | Op::Dcx(_)
            | Op::InxSp
            | Op::DcxSp
            | Op::Nop
            | Op::Ei
            | Op::Di
            | Op::Out(_)
            | Op::In(_)
            | Op::Xchg
            | Op::Sphl => Family::Register,
            Op::Mov(_, _)
            | Op::Mvi(_, _)
            | Op::Lxi(_, _, _, _)
            | Op::LxiSp(_, _)
            | Op::Stax(_)
            | Op::Ldax(_)
            | Op::Sta(_)
            | Op::Lda(_)
            | Op::Shld(_)
            | Op::Lhld(_) => Family::Transfer,
            Op::Push(_, _)
            | Op::Pop(_, _)
            | Op::PushPsw
            | Op::PopPsw
            | Op::Xthl => Family::Stack,
            _ => Family::Control,
        }
    }

    /// The family that the instruction belongs to.
    pub fn get_family(&self) -> (f: Family)
        ensures
            f == self.family(),
    {
        match self {
            Op::Incr(_)
            | Op::Decr(_)
            | Op::Add(_)
            | Op::Sub(_)
            | Op::Ana(_)
            | Op::Xra(_)
            | Op::Ora(_)
            | Op::Cmp(_)
            | Op::Adc(_)
            | Op::Sbb(_)
            | Op::Adi(_)
            | Op::Aci(_)
            | Op::Sui(_)
            | Op::Sbi(_)
            | Op::Ani(_)
            | Op::Xri(_)
            | Op::Ori(_)
            | Op::Cpi(_)
            | Op::Daa => Family::Arithmetic,
            Op::Rlc
            | Op::Rrc
            | Op::Ral
            | Op::Rar
            | Op::Cma
            | Op::Stc
            | Op::Cmc
            | Op::Dad(_)
            | Op::DadSp
            | Op::Inx(_)
            | Op::Dcx(_)
            | Op::InxSp
            | Op::DcxSp
            | Op::Nop
            | Op::Ei
            | Op::Di
            | Op::Out(_)
            | Op::In(_)
            | Op::Xchg
            | Op::Sphl => Family::Register,
            Op::Mov(_, _)
            | Op::Mvi(_, _)
            | Op::Lxi(_, _, _, _)
            | Op::LxiSp(_, _)
            | Op::Stax(_)
            | Op::Ldax(_)
            | Op::Sta(_)
            | Op::Lda(_)
            | Op::Shld(_)
            | Op::Lhld(_) => Family::Transfer,
            Op::Push(_, _)
            | Op::Pop(_, _)
            | Op::PushPsw
            | Op::PopPsw
            | Op::Xthl => Family::Stack,
            _ => Family::Control,
        }
    }

    /// Whether the instruction carries a 16-bit operand.
    pub open spec fn has_word_operand(self) -> bool {
        match self {
            Op::Lxi(_, _, _, _)
            | Op::LxiSp(_, _)
            | Op::Shld(_)
            | Op::Lhld(_)
            | Op::Sta(_)
            | Op::Lda(_)
            | Op::Jmp(_)
            | Op::Call(_)
            | Op::Jnz(_)
            | Op::Jz(_)
            | Op::Jnc(_)
            | Op::Jc(_)
            | Op::Jpo(_)
            | Op::Jpe(_)
            | Op::Jp(_)
            | Op::Jm(_)
            | Op::Cnz(_)
            | Op::Cz(_)
            | Op::Cnc(_)
            | Op::Cc(_)
            | Op::Cpo(_)
            | Op::Cpe(_)
            | Op::Cp(_)
            | Op::Cm(_) => true,
            _ => false,
        }
    }

    /// Whether the instruction carries a single immediate byte.
    pub open spec fn has_byte_operand(self) -> bool {
        match self {
            Op::Mvi(_, _)
            | Op::Adi(_)
            | Op::Aci(_)
            | Op::Sui(_)
            | Op::Sbi(_)
            | Op::Ani(_)
            | Op::Xri(_)
            | Op::Ori(_)
            | Op::Cpi(_)
            | Op::In(_)
            | Op::Out(_) => true,
            _ => false,
        }
    }

    /// The encoded length in bytes: the opcode and the operand bytes that
    /// follow it. It depends on the instruction alone, not on its operands.
    pub open spec fn size(self) -> nat {
        if self.has_word_operand() {
            3
        } else if self.has_byte_operand() {
            2
        } else {
            1
        }
    }

    /// An instruction that works on a 16-bit register value names a
    /// register pair, and one that names the two halves of a pair one by
    /// one names two 8-bit registers.
    pub open spec fn well_formed(self) -> bool {
        match self {
            Op::Dad(reg) | Op::Inx(reg) | Op::Dcx(reg) => reg.is_pair(),
            Op::Lxi(high, low, _, _) | Op::Push(high, low) | Op::Pop(high, low) => {
                !high.is_pair() && !low.is_pair()
            },
            _ => true,
        }
    }

    /// The encoded length in bytes.
    pub fn get_size(&self) -> (n: u16)
        ensures
            n == self.size(),
            1 <= n <= 3,
    {
        match self {
            Op::Nop
            | Op::Incr(_)
            | Op::Decr(_)
            | Op::Mov(_, _)
            | Op::Add(_)
            | Op::Sub(_)
            | Op::Ana(_)
            | Op::Xra(_)
            | Op::Ora(_)
            | Op::Cmp(_)
            | Op::Adc(_)
            | Op::Sbb(_)
            | Op::Dad(_)
            | Op::Stax(_)
            | Op::Inx(_)
            | Op::Dcx(_)
            | Op::Ldax(_)
            | Op::Push(_, _)
            | Op::Pop(_, _)
            | Op::Rlc
            | Op::Rrc
            | Op::Ral
            | Op::Rar
            | Op::Cma
            | Op::InxSp
            | Op::Stc
            | Op::DadSp
            | Op::DcxSp
            | Op::Cmc
            | Op::Rnz
            | Op::Rz
            | Op::Ret
            | Op::Rnc
            | Op::Rc
            | Op::Rpo
            | Op::Xthl
            | Op::Rpe
            | Op::Pchl
            | Op::Xchg
            | Op::Rp
            | Op::PopPsw
            | Op::PushPsw
            | Op::Rm
            | Op::Sphl
            | Op::Ei
            | Op::Di
            | Op::Daa => 1,
            Op::Mvi(_, _)
            | Op::Ani(_)
            | Op::Xri(_)
            | Op::Ori(_)
            | Op::Cpi(_)
            | Op::Aci(_)
            | Op::Sui(_)
            | Op::Sbi(_)
            | Op::In(_)
            | Op::Adi(_)
            | Op::Out(_) => 2,
            Op::Lxi(_, _, _, _)
            | Op::LxiSp(_, _)
            | Op::Shld(_)
            | Op::Lhld(_)
            | Op::Sta(_)
            | Op::Lda(_)
            | Op::Jnz(_)
            | Op::Jmp(_)
            | Op::Cnz(_)
            | Op::Jz(_)
            | Op::Cz(_)
            | Op::Call(_)
            | Op::Jnc(_)
            | Op::Cnc(_)
            | Op::Jc(_)
            | Op::Cc(_)
            | Op::Jpo(_)
            | Op::Cpo(_)
            | Op::Jpe(_)
            | Op::Cpe(_)
            | Op::Jp(_)
            | Op::Cp(_)
            | Op::Jm(_)
            | Op::Cm(_) => 3,
        }
    }
}

} // verus!
