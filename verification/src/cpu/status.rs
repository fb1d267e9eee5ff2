//! The status register `P`: eight flags packed into a byte, bit 7 to bit 0
//! `N V U B D I Z C`.

use vstd::prelude::*;

verus! {

/// The flags of the status register.
#[derive(Clone, Copy, Debug, PartialEq, Eq, Structural)]
pub enum StatusFlags {
    /// Carry, bit 0.
    C,
    /// Zero, bit 1.
    Z,
    /// Interrupt disable, bit 2.
    I,
    /// Decimal mode, bit 3. It is kept, and changes nothing.
    D,
    /// Break, bit 4. It is set by a reset and dropped whenever P comes back
    /// from the stack; in the copies of `P` on the stack it tells a push by
    /// an instruction, which sets it, from a push by an interrupt, which
    /// clears it.
    B,
    /// Bit 5, which has no meaning and reads as one.
    U,
    /// Overflow, bit 6.
    V,
    /// Negative, bit 7.
    N,
}

impl StatusFlags {
    /// The bit of the flag in `P`.
    pub open spec fn mask(self) -> u8 {
        match self {
            StatusFlags::C => 0x01,
            StatusFlags::Z => 0x02,
            StatusFlags::I => 0x04,
            StatusFlags::D => 0x08,
            StatusFlags::B => 0x10,
            StatusFlags::U => 0x20,
            StatusFlags::V => 0x40,
            StatusFlags::N => 0x80,
        }
    }

    /// The bit of the flag in `P`.
    pub fn bit(&self) -> (mask: u8)
        ensures
            mask == self.mask(),
    {
        match self {
            StatusFlags::C => 0x01,
            StatusFlags::Z => 0x02,
            StatusFlags::I => 0x04,
            StatusFlags::D => 0x08,
            StatusFlags::B => 0x10,
            StatusFlags::U => 0x20,
            StatusFlags::V => 0x40,
            StatusFlags::N => 0x80,
        }
    }
}

/// Whether a flag is set in `p`.
#[verifier::opaque]
pub open spec fn flag(p: u8, which: StatusFlags) -> bool {
    p & which.mask() != 0
}

/// `p` with one flag set or cleared.
#[verifier::opaque]
pub open spec fn with_flag(p: u8, which: StatusFlags, on: bool) -> u8 {
    if on {
        p | which.mask()
    } else {
        p & !which.mask()
    }
}

/// `p` with Z and N set from a result: Z if it is zero, N if its bit 7 is
/// set.
pub open spec fn with_zn(p: u8, result: u8) -> u8 {
    with_flag(with_flag(p, StatusFlags::Z, result == 0), StatusFlags::N, result >= 0x80)
}

/// The copy of `p` that goes on the stack: bit 5 set, and the break flag as
/// given.
pub open spec fn pushed_status(p: u8, from_instruction: bool) -> u8 {
    with_flag(with_flag(p, StatusFlags::B, from_instruction), StatusFlags::U, true)
}

/// Setting or clearing one bit gives that bit the value asked for and
/// leaves every other bit alone.
pub proof fn lemma_one_bit(p: u8, mask: u8)
    by (bit_vector)
    requires
        mask == 0x01 || mask == 0x02 || mask == 0x04 || mask == 0x08 || mask == 0x10 || mask
            == 0x20 || mask == 0x40 || mask == 0x80,
    ensures
        (p | mask) & mask != 0,
        (p & !mask) & mask == 0,
        (p | mask) & !mask == p & !mask,
        (p & !mask) & !mask == p & !mask,
        (p | mask) | mask == p | mask,
{
}

/// A flag that was just written reads back as written, and no other flag
/// has changed.
pub proof fn lemma_with_flag(p: u8, which: StatusFlags, on: bool, other: StatusFlags)
    ensures
        flag(with_flag(p, which, on), which) == on,
        other != which ==> flag(with_flag(p, which, on), other) == flag(p, other),
{
    reveal(flag);
    reveal(with_flag);
    lemma_one_bit(p, which.mask());
    lemma_two_bits(p, which.mask(), other.mask());
}

/// Setting or clearing one bit does not change another.
pub proof fn lemma_two_bits(p: u8, mask: u8, other: u8)
    by (bit_vector)
    requires
        mask == 0x01 || mask == 0x02 || mask == 0x04 || mask == 0x08 || mask == 0x10 || mask
            == 0x20 || mask == 0x40 || mask == 0x80,
        other == 0x01 || other == 0x02 || other == 0x04 || other == 0x08 || other == 0x10
            || other == 0x20 || other == 0x40 || other == 0x80,
    ensures
        mask != other ==> (p | mask) & other == p & other,
        mask != other ==> (p & !mask) & other == p & other,
{
}


/// The copy of P that goes on the stack always shows bit 5 set; its break
/// flag tells a push by an instruction from one by an interrupt; every
/// other flag is the one of P.
pub proof fn lemma_pushed_status(p: u8, from_instruction: bool, other: StatusFlags)
    ensures
        flag(pushed_status(p, from_instruction), StatusFlags::U),
        flag(pushed_status(p, from_instruction), StatusFlags::B) == from_instruction,
        other != StatusFlags::B && other != StatusFlags::U ==> flag(
            pushed_status(p, from_instruction),
            other,
        ) == flag(p, other),
{
    let broken = with_flag(p, StatusFlags::B, from_instruction);
    lemma_with_flag(p, StatusFlags::B, from_instruction, other);
    lemma_with_flag(broken, StatusFlags::U, true, other);
    lemma_with_flag(broken, StatusFlags::U, true, StatusFlags::B);
}

/// Bit 7 of a byte is its sign: set from 128 on. Two bytes differ in it
/// exactly if the bit is set in their exclusive or.
pub proof fn lemma_sign_bit(a: u8, b: u8)
    by (bit_vector)
    ensures
        (a & 0x80 != 0) == (a >= 0x80),
        ((a ^ b) & 0x80 != 0) == ((a >= 0x80) != (b >= 0x80)),
        ((!(a ^ b)) & 0x80 != 0) == ((a >= 0x80) == (b >= 0x80)),
{
}

/// The overflow test of `ADC` on bits: both operands differ from the
/// result in their sign, which they can only do if they agree in it.
pub proof fn lemma_overflow_bits(a: u8, m: u8, r: u8)
    by (bit_vector)
    ensures
        ((!(a ^ m) & (a ^ r)) & 0x80 != 0) == ((a >= 0x80) == (m >= 0x80) && (a >= 0x80) != (r
            >= 0x80)),
{
}

} // verus!
