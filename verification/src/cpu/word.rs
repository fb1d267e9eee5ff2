//! Arithmetic on bytes and words as the processor does it: every sum and
//! every difference wraps around, and a word is two bytes, low byte first.

use vstd::prelude::*;

verus! {

/// `value + delta`, wrapped into a byte.
pub open spec fn add8(value: u8, delta: int) -> u8 {
    ((value + delta) % 256) as u8
}

/// `value + delta`, wrapped into a word.
pub open spec fn add16(value: u16, delta: int) -> u16 {
    ((value + delta) % 0x10000) as u16
}

/// The word with the given low and high bytes.
pub open spec fn word(lo: u8, hi: u8) -> u16 {
    (hi as int * 256 + lo as int) as u16
}

/// The low byte of a word.
pub open spec fn low(value: u16) -> u8 {
    (value % 256) as u8
}

/// The high byte of a word, which is the number of its page.
pub open spec fn high(value: u16) -> u8 {
    (value / 256) as u8
}

/// A byte read as a signed distance, as a word: bytes from `0x80` on stand
/// for the negative numbers and get `0xFF` as their high byte.
pub open spec fn sign_extended(offset: u8) -> u16 {
    if offset >= 0x80 {
        word(offset, 0xFF)
    } else {
        word(offset, 0x00)
    }
}

/// A byte read as a signed number.
pub open spec fn signed(value: u8) -> int {
    if value >= 0x80 {
        value as int - 256
    } else {
        value as int
    }
}

pub fn increment8(value: u8) -> (sum: u8)
    ensures
        sum == add8(value, 1),
{
    if value == 0xFF {
        0
    } else {
        value + 1
    }
}

pub fn decrement8(value: u8) -> (difference: u8)
    ensures
        difference == add8(value, -1),
{
    if value == 0 {
        0xFF
    } else {
        value - 1
    }
}

pub fn sum8(value: u8, delta: u8) -> (sum: u8)
    ensures
        sum == add8(value, delta as int),
{
    ((value as u16 + delta as u16) % 256) as u8
}

pub fn difference8(value: u8, delta: u8) -> (difference: u8)
    ensures
        difference == add8(value, -(delta as int)),
{
    ((value as u16 + 256 - delta as u16) % 256) as u8
}

pub fn sum16(value: u16, delta: u16) -> (sum: u16)
    ensures
        sum == add16(value, delta as int),
{
    ((value as u32 + delta as u32) % 0x10000) as u16
}

pub fn decrement16(value: u16) -> (difference: u16)
    ensures
        difference == add16(value, -1),
{
    if value == 0 {
        0xFFFF
    } else {
        value - 1
    }
}

pub fn make_word(lo: u8, hi: u8) -> (value: u16)
    ensures
        value == word(lo, hi),
        low(value) == lo,
        high(value) == hi,
{
    hi as u16 * 256 + lo as u16
}

pub fn low_byte(value: u16) -> (lo: u8)
    ensures
        lo == low(value),
{
    (value % 256) as u8
}

pub fn high_byte(value: u16) -> (hi: u8)
    ensures
        hi == high(value),
{
    (value / 256) as u8
}

pub fn sign_extend(offset: u8) -> (value: u16)
    ensures
        value == sign_extended(offset),
{
    if offset >= 0x80 {
        make_word(offset, 0xFF)
    } else {
        make_word(offset, 0x00)
    }
}

/// Adding a sign-extended byte to a word, with wrap-around, moves the word
/// by the signed value of the byte.
pub proof fn lemma_sign_extended_add(base: u16, offset: u8)
    ensures
        add16(base, sign_extended(offset) as int) == add16(base, signed(offset)),
{
}

/// The bit patterns of a word and the arithmetic on it agree: masking with
/// `0xFF00` compares pages, masking with `0x00FF` gives the low byte, and
/// shifting by eight moves a byte between the halves.
pub proof fn lemma_word_bits(a: u16, b: u16, lo: u8, hi: u8)
    by (bit_vector)
    ensures
        (a & 0xFF00 != b & 0xFF00) == (a / 256 != b / 256),
        a & 0x00FF == a % 256,
        a >> 8 == a / 256,
        (hi as u16) << 8 | lo as u16 == (hi as u16) * 256 + lo as u16,
{
}

} // verus!
