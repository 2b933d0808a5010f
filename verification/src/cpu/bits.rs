//! Byte and word arithmetic shared by the whole processor model.

use vstd::prelude::*;

verus! {

/// Number of one-bits in the binary expansion of `n`.
pub open spec fn count_ones(n: nat) -> nat
    decreases n,
{
    if n == 0 {
        0
    } else {
        (n % 2) + count_ones(n / 2)
    }
}

/// Whether `b` holds an even number of one-bits.
pub open spec fn even_parity(b: u8) -> bool {
    count_ones(b as nat) % 2 == 0
}

/// The integer `x` reduced to eight bits.
pub open spec fn wrap8(x: int) -> u8 {
    (x % 0x100) as u8
}

/// The integer `x` reduced to sixteen bits.
pub open spec fn wrap16(x: int) -> u16 {
    (x % 0x1_0000) as u16
}

/// The 16-bit value whose upper byte is `high` and whose lower byte is `low`.
pub open spec fn word(high: u8, low: u8) -> u16 {
    (high * 0x100 + low) as u16
}

/// The upper byte of `w`.
pub open spec fn high_byte(w: u16) -> u8 {
    (w / 0x100) as u8
}

/// The lower byte of `w`.
pub open spec fn low_byte(w: u16) -> u8 {
    (w % 0x100) as u8
}

/// Whether bit `i` of `b` is set, bit 0 being the least significant.
pub open spec fn bit(b: u8, i: u8) -> bool
    recommends
        i < 8,
{
    (b >> i) & 1 == 1
}

/// The byte `b` with bit `i` set where `on` holds and cleared where it does
/// not.
pub open spec fn with_bit(b: u8, i: u8, on: bool) -> u8
    recommends
        i < 8,
{
    if on {
        b | (1u8 << i)
    } else {
        b & !(1u8 << i)
    }
}

/// The parity bit of a byte: 1 when it holds an even number of one-bits,
/// 0 otherwise.
pub fn parity(b: u8) -> (p: u8)
    ensures
        p == 1 <==> even_parity(b),
        p == 0 <==> !even_parity(b),
{
    let mut rest: u8 = b;
    let mut even: bool = true;
    while rest != 0
        invariant
            even_parity(b) == (even == (count_ones(rest as nat) % 2 == 0)),
        decreases rest,
    {
        if rest % 2 == 1 {
            even = !even;
        }
        rest = rest / 2;
    }
    if even {
        1
    } else {
        0
    }
}

/// Joins two bytes into a word, `high` above `low`.
pub fn make_word(high: u8, low: u8) -> (w: u16)
    ensures
        w == word(high, low),
        high_byte(w) == high,
        low_byte(w) == low,
{
    (high as u16) * 0x100 + (low as u16)
}

/// Splits a word into its upper and lower byte.
pub fn split_word(w: u16) -> (bytes: (u8, u8))
    ensures
        bytes.0 == high_byte(w),
        bytes.1 == low_byte(w),
        word(bytes.0, bytes.1) == w,
{
    ((w / 0x100) as u8, (w % 0x100) as u8)
}

/// The sum of two words, wrapped at sixteen bits.
pub fn add16(x: u16, y: u16) -> (r: u16)
    ensures
        r == wrap16(x + y),
{
    x.wrapping_add(y)
}

/// The difference of two words, wrapped at sixteen bits.
pub fn sub16(x: u16, y: u16) -> (r: u16)
    ensures
        r == wrap16(x - y),
{
    x.wrapping_sub(y)
}

/// The sum of two bytes, wrapped at eight bits.
pub fn add8(x: u8, y: u8) -> (r: u8)
    ensures
        r == wrap8(x + y),
{
    x.wrapping_add(y)
}

/// The difference of two bytes, wrapped at eight bits.
pub fn sub8(x: u8, y: u8) -> (r: u8)
    ensures
        r == wrap8(x - y),
{
    x.wrapping_sub(y)
}

/// Whether bit `i` of `b` is set.
pub fn test_bit(b: u8, i: u8) -> (r: bool)
    requires
        i < 8,
    ensures
        r == bit(b, i),
{
    (b >> i) & 1 == 1
}

/// Sets or clears bit `i` of `b` and leaves every other bit as it is.
pub fn assign_bit(b: u8, i: u8, on: bool) -> (r: u8)
    requires
        i < 8,
    ensures
        r == with_bit(b, i, on),
        bit(r, i) == on,
        forall|j: u8| j < 8 && j != i ==> bit(r, j) == bit(b, j),
{
    proof {
        with_bit_changes_one_bit(b, i, on);
    }
    if on {
        b | (1u8 << i)
    } else {
        b & !(1u8 << i)
    }
}

/// Assigning a bit makes that bit what was asked for and changes no other
/// bit.
pub proof fn with_bit_changes_one_bit(b: u8, i: u8, on: bool)
    by (bit_vector)
    requires
        i < 8,
    ensures
        bit(with_bit(b, i, on), i) == on,
        forall|j: u8| j < 8 && j != i ==> bit(with_bit(b, i, on), j) == bit(b, j),
{
}

/// A word is its upper byte shifted left by eight bits, or-ed with its
/// lower byte.
pub proof fn word_is_shifted_bytes(high: u8, low: u8)
    by (bit_vector)
    ensures
        word(high, low) == ((high as u16) << 8) | (low as u16),
{
}

/// A byte is 128 or more exactly when its bit 7 is set, and odd exactly
/// when its bit 0 is set.
pub proof fn top_and_bottom_bits(b: u8)
    by (bit_vector)
    ensures
        bit(b, 7) == (b >= 0x80),
        bit(b, 0) == (b % 2 == 1),
{
}

/// Joining the two halves of a word gives the word back, and splitting a
/// joined word gives back the two bytes.
pub proof fn word_round_trip(w: u16, high: u8, low: u8)
    ensures
        word(high_byte(w), low_byte(w)) == w,
        high_byte(word(high, low)) == high,
        low_byte(word(high, low)) == low,
{
}

} // verus!
