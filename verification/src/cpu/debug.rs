//! A one-line picture of the processor, for a host that wants to log what
//! it executes.

use vstd::prelude::*;
use vstd::string::*;
use crate::cpu::bits::{add16, make_word, word, wrap16};
use crate::cpu::label::{
    append_hex_byte, append_hex_word, append_number, decimal_number, hex_byte, hex_word,
};
use crate::cpu::op::Op;
use crate::cpu::state::{Flags, State, StateView};

verus! {

/// The width to which the label of the instruction is padded.
pub const LABEL_WIDTH: usize = 11;

/// `n` spaces.
pub open spec fn spaces(n: nat) -> Seq<char>
    decreases n,
{
    if n == 0 {
        Seq::empty()
    } else {
        spaces((n - 1) as nat) + " "@
    }
}

/// `text` followed by as many spaces as it takes to make it `width`
/// characters long; a longer text stays as it is.
pub open spec fn padded(text: Seq<char>, width: nat) -> Seq<char> {
    if text.len() < width {
        text + spaces((width - text.len()) as nat)
    } else {
        text
    }
}

/// One letter for each of zero, sign, parity and carry, in that order: the
/// flag's letter where it is set and a dot where it is clear.
pub open spec fn flag_letters(f: Flags) -> Seq<char> {
    (if f.z {
        "z"@
    } else {
        "."@
    }) + (if f.s {
        "s"@
    } else {
        "."@
    }) + (if f.p {
        "p"@
    } else {
        "."@
    }) + (if f.cy {
        "c"@
    } else {
        "."@
    })
}

/// A named byte: a space, the name, a colon and two hexadecimal digits.
pub open spec fn named_byte(name: Seq<char>, value: u8) -> Seq<char> {
    " "@ + name + ":"@ + hex_byte(value)
}

/// A named word: a space, the name, a colon and four hexadecimal digits.
pub open spec fn named_word(name: Seq<char>, value: u16) -> Seq<char> {
    " "@ + name + ":"@ + hex_word(value)
}

/// The registers of `s`, each under its name; L and H share one.
pub open spec fn registers_text(s: StateView) -> Seq<char> {
    named_byte("a"@, s.a) + named_byte("b"@, s.b) + named_byte("c"@, s.c) + named_byte(
        "d"@,
        s.d,
    ) + named_byte("e"@, s.e) + named_word("lh"@, word(s.h, s.l))
}

/// The program counter and the stack pointer of `s`, and the two bytes at
/// the stack pointer read as a word with the first byte on top.
pub open spec fn pointers_text(s: StateView) -> Seq<char> {
    named_word("pc"@, s.pc) + named_word("sp"@, s.sp) + named_word(
        "spvalue"@,
        word(s.load(s.sp), s.load(wrap16(s.sp + 1))),
    )
}

/// The line that pictures the state `s` about to execute `op` as its
/// `counter`-th instruction: the program counter, the label of the
/// instruction padded to [`LABEL_WIDTH`], the registers, the pointers, the
/// counter in decimal, and the flags.
pub open spec fn debug_line(s: StateView, op: Op, counter: u64) -> Seq<char> {
    hex_word(s.pc) + ": "@ + padded(op.label(), LABEL_WIDTH as nat) + registers_text(s)
        + pointers_text(s) + " |  "@ + decimal_number(counter as nat) + flag_letters(s.flags)
}

/// Appends spaces until the text that started at `start` is `width`
/// characters long.
fn pad(text: &mut String, length: usize, width: usize)
    ensures
        final(text)@ == old(text)@ + spaces(
            if length < width {
                (width - length) as nat
            } else {
                0
            },
        ),
{
    let mut at: usize = length;
    while at < width
        invariant
            length <= at,
            at <= width || at == length,
            text@ == old(text)@ + spaces((at - length) as nat),
        decreases width - at,
    {
        text.append(" ");
        at = at + 1;
    }
}

/// Appends the letter of a flag where it is set and a dot where it is not.
fn append_flag(text: &mut String, on: bool, letter: &str)
    ensures
        final(text)@ == old(text)@ + (if on {
            letter@
        } else {
            "."@
        }),
{
    if on {
        text.append(letter);
    } else {
        text.append(".");
    }
}

/// Appends a named byte.
fn append_named_byte(text: &mut String, name: &str, value: u8)
    ensures
        final(text)@ == old(text)@ + named_byte(name@, value),
{
    text.append(" ");
    text.append(name);
    text.append(":");
    append_hex_byte(text, value);
    assert(text@ =~= old(text)@ + named_byte(name@, value));
}

/// Appends a named word.
fn append_named_word(text: &mut String, name: &str, value: u16)
    ensures
        final(text)@ == old(text)@ + named_word(name@, value),
{
    text.append(" ");
    text.append(name);
    text.append(":");
    append_hex_word(text, value);
    assert(text@ =~= old(text)@ + named_word(name@, value));
}

/// Appends the registers of `state`.
fn append_registers(text: &mut String, state: &State)
    ensures
        final(text)@ == old(text)@ + registers_text(state@),
{
    append_named_byte(text, "a", state.a);
    append_named_byte(text, "b", state.b);
    append_named_byte(text, "c", state.c);
    append_named_byte(text, "d", state.d);
    append_named_byte(text, "e", state.e);
    append_named_word(text, "lh", make_word(state.h, state.l));
    assert(text@ =~= old(text)@ + registers_text(state@));
}

/// Appends the pointers of `state`.
fn append_pointers(text: &mut String, state: &State)
    requires
        state.wf(),
    ensures
        final(text)@ == old(text)@ + pointers_text(state@),
{
    append_named_word(text, "pc", state.pc);
    append_named_word(text, "sp", state.sp);
    let top = make_word(state.load(state.sp), state.load(add16(state.sp, 1)));
    append_named_word(text, "spvalue", top);
    assert(text@ =~= old(text)@ + pointers_text(state@));
}

/// Appends the letters of the flags.
fn append_flags(text: &mut String, flags: &Flags)
    ensures
        final(text)@ == old(text)@ + flag_letters(*flags),
{
    append_flag(text, flags.z, "z");
    append_flag(text, flags.s, "s");
    append_flag(text, flags.p, "p");
    append_flag(text, flags.cy, "c");
    assert(text@ =~= old(text)@ + flag_letters(*flags));
}

/// The label of `op`, padded to [`LABEL_WIDTH`].
fn padded_label(op: &Op) -> (text: String)
    ensures
        text@ == padded(op.label(), LABEL_WIDTH as nat),
{
    let mut text = op.print();
    let length = text.as_str().unicode_len();
    pad(&mut text, length, LABEL_WIDTH);
    proof {
        assert(spaces(0) =~= Seq::<char>::empty());
        assert(text@ =~= padded(op.label(), LABEL_WIDTH as nat));
    }
    text
}

/// The line that pictures `state` about to execute `op` as its `counter`-th
/// instruction.
pub fn print_debug_info(state: &State, op: &Op, counter: u64) -> (line: String)
    requires
        state.wf(),
    ensures
        line@ == debug_line(state@, *op, counter),
{
    let mut line = String::new();
    append_hex_word(&mut line, state.pc);
    line.append(": ");
    line.append(padded_label(op).as_str());
    append_registers(&mut line, state);
    append_pointers(&mut line, state);
    line.append(" |  ");
    append_number(&mut line, counter);
    append_flags(&mut line, &state.flags);
    proof {
        assert(line@ =~= debug_line(state@, *op, counter));
    }
    line
}

} // verus!
