//! The display label of an instruction.

use vstd::prelude::*;
use vstd::string::*;
use crate::cpu::bits::{high_byte, low_byte, split_word};
use crate::cpu::op::Op;
use crate::cpu::state::Register;

verus! {

/// The digit `n` as text, in base sixteen with lower-case letters.
pub open spec fn digit_text(n: int) -> Seq<char>
    recommends
        0 <= n < 16,
{
    if n == 0 {
        "0"@
    } else if n == 1 {
        "1"@
    } else if n == 2 {
        "2"@
    } else if n == 3 {
        "3"@
    } else if n == 4 {
        "4"@
    } else if n == 5 {
        "5"@
    } else if n == 6 {
        "6"@
    } else if n == 7 {
        "7"@
    } else if n == 8 {
        "8"@
    } else if n == 9 {
        "9"@
    } else if n == 10 {
        "a"@
    } else if n == 11 {
        "b"@
    } else if n == 12 {
        "c"@
    } else if n == 13 {
        "d"@
    } else if n == 14 {
        "e"@
    } else {
        "f"@
    }
}

/// A byte as two hexadecimal digits.
pub open spec fn hex_byte(b: u8) -> Seq<char> {
    digit_text(b as int / 16) + digit_text(b as int % 16)
}

/// A word as four hexadecimal digits.
pub open spec fn hex_word(w: u16) -> Seq<char> {
    hex_byte(high_byte(w)) + hex_byte(low_byte(w))
}

/// A number in decimal, without leading zeros.
pub open spec fn decimal_number(n: nat) -> Seq<char>
    decreases n,
{
    if n < 10 {
        digit_text(n as int)
    } else {
        decimal_number(n / 10) + digit_text((n % 10) as int)
    }
}

/// Appends the digit `n`.
pub fn append_digit(text: &mut String, n: u8)
    requires
        n < 16,
    ensures
        final(text)@ == old(text)@ + digit_text(n as int),
{
    text.append(digit(n));
}

/// The digit `n` as text.
fn digit(n: u8) -> (text: &'static str)
    requires
        n < 16,
    ensures
        text@ == digit_text(n as int),
{
    match n {
        0 => "0",
        1 => "1",
        2 => "2",
        3 => "3",
        4 => "4",
        5 => "5",
        6 => "6",
        7 => "7",
        8 => "8",
        9 => "9",
        10 => "a",
        11 => "b",
        12 => "c",
        13 => "d",
        14 => "e",
        _ => "f",
    }
}

/// Appends a byte as two hexadecimal digits.
pub fn append_hex_byte(text: &mut String, b: u8)
    ensures
        final(text)@ == old(text)@ + hex_byte(b),
{
    text.append(digit(b / 16));
    text.append(digit(b % 16));
}

/// Appends a word as four hexadecimal digits.
pub fn append_hex_word(text: &mut String, w: u16)
    ensures
        final(text)@ == old(text)@ + hex_word(w),
{
    let (high, low) = split_word(w);
    append_hex_byte(text, high);
    append_hex_byte(text, low);
}

/// Appends a number in decimal.
pub fn append_number(text: &mut String, n: u64)
    ensures
        final(text)@ == old(text)@ + decimal_number(n as nat),
    decreases n,
{
    if n < 10 {
        append_digit(text, n as u8);
    } else {
        append_number(text, n / 10);
        append_digit(text, (n % 10) as u8);
    }
}

/// A mnemonic followed by the name of its operand.
fn with_operand(mnemonic: &str, reg: &Register) -> (text: String)
    ensures
        text@ == mnemonic@ + reg.name(),
{
    let mut text = String::from_str(mnemonic);
    text.append(reg.to_string());
    text
}

impl Op {
    /// The label under which the instruction is displayed: its mnemonic
    /// and, for some instructions, an operand. A register shows by name, an
    /// address as four hexadecimal digits, the bytes of `LXI SP` as two
    /// hexadecimal digits each with the upper byte first, and the byte of
    /// `MVI` in decimal.
    pub open spec fn label(self) -> Seq<char> {
        match self {
            Op::Incr(reg) => "INCR "@ + reg.name(),
            Op::Decr(reg) => "DECR "@ + reg.name(),
            Op::Add(reg) => "ADD "@ + reg.name(),
            Op::Sub(reg) => "SUB "@ + reg.name(),
            Op::Ana(reg) => "ANA "@ + reg.name(),
            Op::Xra(reg) => "XRA "@ + reg.name(),
            Op::Ora(reg) => "ORA "@ + reg.name(),
            Op::Mov(dest, source) => "MOV "@ + dest.name() + ","@ + source.name(),
            Op::Cmp(reg) => "CMP "@ + reg.name(),
            Op::Adc(reg) => "ADC "@ + reg.name(),
            Op::Sbb(reg) => "SBB "@ + reg.name(),
            Op::Lxi(first, second, _, _) => "LXI "@ + first.name() + second.name(),
            Op::LxiSp(low, high) => "LXI SP "@ + hex_byte(high) + hex_byte(low),
            Op::Dad(first) => "DAD "@ + first.name(),
            Op::Mvi(reg, val) => "MVI "@ + reg.name() + ","@ + decimal_number(val as nat),
            Op::Stax(reg) => "STAX "@ + reg.name(),
            Op::Inx(reg) => "INX "@ + reg.name(),
            Op::Dcx(reg) => "DCX "@ + reg.name(),
            Op::Ldax(reg) => "LDAX "@ + reg.name(),
            Op::Push(reg, _) => "PUSH "@ + reg.name(),
            Op::Pop(reg, _) => "POP "@ + reg.name(),
            Op::Rlc => "RLC"@,
            Op::Rrc => "RRC"@,
            Op::Ral => "RAL"@,
            Op::Rar => "RAR"@,
            Op::Shld(_) => "SHLD"@,
            Op::Lhld(_) => "LHLD"@,
            Op::Cma => "CMA"@,
            Op::Sta(_) => "STA"@,
            Op::InxSp => "INX SP"@,
            Op::Stc => "STC"@,
            Op::DadSp => "DAD SP"@,
            Op::Lda(val) => "LDA "@ + hex_word(val),
            Op::DcxSp => "DCX SP"@,
            Op::Cmc => "CMC"@,
            Op::Rnz => "RNZ"@,
            Op::Jnz(val) => "JNZ "@ + hex_word(val),
            Op::Jmp(val) => "JMP "@ + hex_word(val),
            Op::Cnz(_) => "CNZ"@,
            Op::Adi(_) => "ADI"@,
            Op::Rz => "RZ"@,
            Op::Ret => "RET"@,
            Op::Jz(_) => "JZ"@,
            Op::Cz(_) => "CZ"@,
            Op::Call(val) => "CALL "@ + hex_word(val),
            Op::Aci(_) => "ACI"@,
            Op::Rnc => "RNC"@,
            Op::Jnc(_) => "JNC"@,
            Op::Cnc(_) => "CNC"@,
            Op::Sui(_) => "SUI"@,
            Op::Rc => "RC"@,
            Op::Jc(_) => "JC"@,
            Op::Cc(_) => "CC"@,
            Op::Sbi(_) => "SBI"@,
            Op::Rpo => "RPO"@,
            Op::Jpo(_) => "JPO"@,
            Op::Xthl => "XTHL"@,
            Op::Cpo(_) => "CPO"@,
            Op::Ani(_) => "ANI"@,
            Op::Rpe => "RPE"@,
            Op::Pchl => "PCHL"@,
            Op::Jpe(_) => "JPE"@,
            Op::Xchg => "XCHG"@,
            Op::Cpe(_) => "CPE"@,
            Op::Xri(_) => "XRI"@,
            Op::Rp => "RP"@,
            Op::Out(_) => "OUT"@,
            Op::PopPsw => "POP PSW"@,
            Op::Jp(_) => "JP"@,
            Op::Cp(_) => "CP"@,
            Op::PushPsw => "PUSH PSW"@,
            Op::Ori(_) => "ORI"@,
            Op::Rm => "Rm"@,
            Op::Sphl => "Sphl"@,
            Op::Jm(_) => "Jm"@,
            Op::Ei => "EI"@,
            Op::Cm(_) => "CM"@,
            Op::Cpi(_) => "CPI"@,
            Op::In(_) => "IN"@,
            Op::Di => "DI"@,
            Op::Daa => "DAA"@,
            Op::Nop => "NOP"@,
        }
    }

    /// The label under which the instruction is displayed.
    pub fn print(&self) -> (text: String)
        ensures
            text@ == self.label(),
    {
        match self {
            Op::Incr(reg) => with_operand("INCR ", reg),
            Op::Decr(reg) => with_operand("DECR ", reg),
            Op::Add(reg) => with_operand("ADD ", reg),
            Op::Sub(reg) => with_operand("SUB ", reg),
            Op::Ana(reg) => with_operand("ANA ", reg),
            Op::Xra(reg) => with_operand("XRA ", reg),
            Op::Ora(reg) => with_operand("ORA ", reg),
            Op::Mov(dest, source) => {
                let mut text = String::from_str("MOV ");
                text.append(dest.to_string());
                text.append(",");
                text.append(source.to_string());
                text
            },
            Op::Cmp(reg) => with_operand("CMP ", reg),
            Op::Adc(reg) => with_operand("ADC ", reg),
            Op::Sbb(reg) => with_operand("SBB ", reg),
            Op::Lxi(first, second, _, _) => {
                let mut text = String::from_str("LXI ");
                text.append(first.to_string());
                text.append(second.to_string());
                text
            },
            Op::LxiSp(low, high) => {
                let mut text = String::from_str("LXI SP ");
                append_hex_byte(&mut text, *high);
                append_hex_byte(&mut text, *low);
                text
            },
            Op::Dad(first) => with_operand("DAD ", first),
            Op::Mvi(reg, val) => {
                let mut text = String::from_str("MVI ");
                text.append(reg.to_string());
                text.append(",");
                append_number(&mut text, *val as u64);
                text
            },
            Op::Stax(reg) => with_operand("STAX ", reg),
            Op::Inx(reg) => with_operand("INX ", reg),
            Op::Dcx(reg) => with_operand("DCX ", reg),
            Op::Ldax(reg) => with_operand("LDAX ", reg),
            Op::Push(reg, _) => with_operand("PUSH ", reg),
            Op::Pop(reg, _) => with_operand("POP ", reg),
            Op::Rlc => String::from_str("RLC"),
            Op::Rrc => String::from_str("RRC"),
            Op::Ral => String::from_str("RAL"),
            Op::Rar => String::from_str("RAR"),
            Op::Shld(_) => String::from_str("SHLD"),
            Op::Lhld(_) => String::from_str("LHLD"),
            Op::Cma => String::from_str("CMA"),
            Op::Sta(_) => String::from_str("STA"),
            Op::InxSp => String::from_str("INX SP"),
            Op::Stc => String::from_str("STC"),
            Op::DadSp => String::from_str("DAD SP"),
            Op::Lda(val) => {
                let mut text = String::from_str("LDA ");
                append_hex_word(&mut text, *val);
                text
            },
            Op::DcxSp => String::from_str("DCX SP"),
            Op::Cmc => String::from_str("CMC"),
            Op::Rnz => String::from_str("RNZ"),
            Op::Jnz(val) => {
                let mut text = String::from_str("JNZ ");
                append_hex_word(&mut text, *val);
                text
            },
            Op::Jmp(val) => {
                let mut text = String::from_str("JMP ");
                append_hex_word(&mut text, *val);
                text
            },
            Op::Cnz(_) => String::from_str("CNZ"),
            Op::Adi(_) => String::from_str("ADI"),
            Op::Rz => String::from_str("RZ"),
            Op::Ret => String::from_str("RET"),
            Op::Jz(_) => String::from_str("JZ"),
            Op::Cz(_) => String::from_str("CZ"),
            Op::Call(val) => {
                let mut text = String::from_str("CALL ");
                append_hex_word(&mut text, *val);
                text
            },
            Op::Aci(_) => String::from_str("ACI"),
            Op::Rnc => String::from_str("RNC"),
            Op::Jnc(_) => String::from_str("JNC"),
            Op::Cnc(_) => String::from_str("CNC"),
            Op::Sui(_) => String::from_str("SUI"),
            Op::Rc => String::from_str("RC"),
            Op::Jc(_) => String::from_str("JC"),
            Op::Cc(_) => String::from_str("CC"),
            Op::Sbi(_) => String::from_str("SBI"),
            Op::Rpo => String::from_str("RPO"),
            Op::Jpo(_) => String::from_str("JPO"),
            Op::Xthl => String::from_str("XTHL"),
            Op::Cpo(_) => String::from_str("CPO"),
            Op::Ani(_) => String::from_str("ANI"),
            Op::Rpe => String::from_str("RPE"),
            Op::Pchl => String::from_str("PCHL"),
            Op::Jpe(_) => String::from_str("JPE"),
            Op::Xchg => String::from_str("XCHG"),
            Op::Cpe(_) => String::from_str("CPE"),
            Op::Xri(_) => String::from_str("XRI"),
            Op::Rp => String::from_str("RP"),
            Op::Out(_) => String::from_str("OUT"),
            Op::PopPsw => String::from_str("POP PSW"),
            Op::Jp(_) => String::from_str("JP"),
            Op::Cp(_) => String::from_str("CP"),
            Op::PushPsw => String::from_str("PUSH PSW"),
            Op::Ori(_) => String::from_str("ORI"),
            Op::Rm => String::from_str("Rm"),
            Op::Sphl => String::from_str("Sphl"),
            Op::Jm(_) => String::from_str("Jm"),
            Op::Ei => String::from_str("EI"),
            Op::Cm(_) => String::from_str("CM"),
            Op::Cpi(_) => String::from_str("CPI"),
            Op::In(_) => String::from_str("IN"),
            Op::Di => String::from_str("DI"),
            Op::Daa => String::from_str("DAA"),
            Op::Nop => String::from_str("NOP"),
        }
    }
}

} // verus!
