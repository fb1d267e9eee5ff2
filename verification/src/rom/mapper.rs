//! Cartridge mappers: the circuit between the addresses that the console
//! puts on the cartridge connector and the bytes of the ROM chips.

use vstd::prelude::*;

verus! {

/// Size of one bank of program ROM.
pub const PRG_BANK_SIZE: usize = 0x4000;

/// Size of one bank of character ROM.
pub const CHR_BANK_SIZE: usize = 0x2000;

/// The way from a cartridge-local address to an offset in a ROM chip.
pub trait Mapper {
    /// Offset in program ROM that a cartridge-local address selects.
    spec fn prg_offset(&self, address: nat) -> nat;

    /// Offset in character ROM that a cartridge-local address selects.
    spec fn chr_offset(&self, address: nat) -> nat;

    fn prg_conversion(&self, address: usize) -> (offset: usize)
        ensures
            offset == self.prg_offset(address as nat),
    ;

    fn chr_conversion(&self, address: usize) -> (offset: usize)
        ensures
            offset == self.chr_offset(address as nat),
    ;
}

/// Mapper 000, NROM: no bank switching. A cartridge with a single bank
/// shows it again and again over the whole window; any other shows its ROM
/// as it is.
#[derive(Clone, Copy, Debug, PartialEq, Eq, Structural)]
pub struct Nrom {
    pub num_prg_banks: usize,
    pub num_chr_banks: usize,
}

/// An address wrapped into a single bank of `bank_size` bytes when there is
/// exactly one bank, and unchanged otherwise.
pub open spec fn nrom_offset(banks: nat, bank_size: nat, address: nat) -> nat {
    if banks == 1 {
        address % bank_size
    } else {
        address
    }
}

impl Mapper for Nrom {
    open spec fn prg_offset(&self, address: nat) -> nat {
        nrom_offset(self.num_prg_banks as nat, PRG_BANK_SIZE as nat, address)
    }

    open spec fn chr_offset(&self, address: nat) -> nat {
        nrom_offset(self.num_chr_banks as nat, CHR_BANK_SIZE as nat, address)
    }

    fn prg_conversion(&self, address: usize) -> (offset: usize) {
        if self.num_prg_banks == 1 {
            address % PRG_BANK_SIZE
        } else {
            address
        }
    }

    fn chr_conversion(&self, address: usize) -> (offset: usize) {
        if self.num_chr_banks == 1 {
            address % CHR_BANK_SIZE
        } else {
            address
        }
    }
}

} // verus!
