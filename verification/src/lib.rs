//! An emulator of the MOS 6502 as built into the Nintendo Entertainment
//! System: the opcode matrix, the memory bus with its devices, the cartridge
//! image and the cycle-counted processor itself.

pub mod bus;
pub mod cpu;
pub mod rom;
pub mod text;

use vstd::prelude::*;
use crate::cpu::cpu::CPU;
use crate::rom::rom::{ROM, ROMError, has_magic, is_complete};

verus! {

/// What a session holds: the cartridge that was loaded last, and the
/// processor that runs it.
pub struct State {
    pub rom: Option<ROM>,
    pub cpu: Option<CPU>,
}

impl State {
    /// A session with nothing loaded.
    pub fn new() -> (state: State)
        ensures
            state.rom is None,
            state.cpu is None,
    {
        State { rom: None, cpu: None }
    }

    /// Loads a cartridge. An image that is refused leaves the session as
    /// it was.
    pub fn set_rom(&mut self, rom_bytes: Vec<u8>) -> (result: Result<(), ROMError>)
        requires
            is_complete(rom_bytes@),
        ensures
            match result {
                Ok(_) => {
                    &&& has_magic(rom_bytes@)
                    &&& final(self).rom matches Some(rom) && rom.loaded_from(rom_bytes@)
                    &&& final(self).cpu == old(self).cpu
                },
                Err(ROMError::InvalidHeader { header_bytes }) => {
                    &&& !has_magic(rom_bytes@)
                    &&& header_bytes@ == rom_bytes@.subrange(0, 16)
                    &&& *final(self) == *old(self)
                },
            },
    {
        match ROM::new(rom_bytes) {
            Ok(rom) => {
                self.rom = Some(rom);
                Ok(())
            },
            Err(error) => Err(error),
        }
    }

    /// Loads a cartridge and switches on a processor with it. An image
    /// that is refused leaves the session as it was.
    pub fn set_cpu(&mut self, rom_bytes: Vec<u8>) -> (result: Result<(), ROMError>)
        requires
            is_complete(rom_bytes@),
        ensures
            match result {
                Ok(_) => {
                    &&& has_magic(rom_bytes@)
                    &&& final(self).rom matches Some(rom) && rom.loaded_from(rom_bytes@)
                    &&& final(self).cpu matches Some(cpu) && cpu@ == CPU::power_on(rom_bytes@)
                },
                Err(ROMError::InvalidHeader { header_bytes }) => {
                    &&& !has_magic(rom_bytes@)
                    &&& header_bytes@ == rom_bytes@.subrange(0, 16)
                    &&& *final(self) == *old(self)
                },
            },
    {
        let copy = rom_bytes.clone();
        assert(copy@ =~= rom_bytes@);
        match ROM::new(copy) {
            Ok(rom) => {
                self.rom = Some(rom);
                self.cpu = Some(CPU::new(rom_bytes));
                Ok(())
            },
            Err(error) => Err(error),
        }
    }
}

} // verus!
