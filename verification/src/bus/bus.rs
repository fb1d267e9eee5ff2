//! The memory bus: sixteen address lines shared by the internal RAM, the
//! picture unit's window, the sound and input registers and the cartridge.
//!
//! | addresses       | device                                             |
//! |-----------------|----------------------------------------------------|
//! | `$0000`-`$1FFF` | 2 KiB of RAM, repeated four times                  |
//! | `$2000`-`$3FFF` | picture unit (not wired: reads zero, drops writes) |
//! | `$4000`-`$4017` | sound and input registers (write only)             |
//! | `$4018`-`$401F` | test registers (not wired)                         |
//! | `$4020`-`$7FFF` | cartridge expansion (empty)                        |
//! | `$8000`-`$FFFF` | program ROM, through the mapper (read only)        |

use vstd::prelude::*;
use crate::rom::mapper::{Mapper, Nrom};
use crate::rom::rom::{ROM, ROMError, has_magic, is_complete, prg_start, prg_end};

verus! {

/// First address of the window of the RAM.
pub const RAM_START: usize = 0x0000;

/// Last address of the window of the RAM.
pub const RAM_END: usize = 0x1FFF;

/// First address of the window of the picture unit.
pub const PPU_START: usize = 0x2000;

/// Last address of the window of the picture unit.
pub const PPU_END: usize = 0x3FFF;

/// First register of the sound unit.
pub const APU_IO_START: usize = 0x4000;

/// Last register of the sound and input block.
pub const APU_IO_END: usize = 0x4017;

/// First test register.
pub const TEST_MODE_START: usize = 0x4018;

/// Last test register.
pub const TEST_MODE_END: usize = 0x401F;

/// First address that belongs to the cartridge.
pub const CARTRIDGE_START: usize = 0x4020;

/// Last address that belongs to the cartridge, and last address of all.
pub const CARTRIDGE_END: usize = 0xFFFF;

/// First address of the program ROM.
pub const ROM_START: usize = 0x8000;

/// Last address of the program ROM.
pub const ROM_END: usize = 0xFFFF;

/// Size of the internal RAM.
pub const RAM_SIZE: usize = 0x800;

/// What can go wrong on the bus. With sixteen address lines every address
/// has a device, so no write of the processor ever fails.
#[derive(Debug, Clone, Copy, PartialEq, Eq)]
pub enum BusError {
    /// The address is beyond the sixteen address lines.
    Unmapped { address: usize },
}

/// The devices that answer on the bus.
#[derive(Clone, Copy, Debug, PartialEq, Eq, Structural)]
pub enum Device {
    Ram,
    Ppu,
    IoRegisters,
    TestMode,
    Expansion,
    Rom,
}

/// Reading and writing through the memory map: the address is the one on
/// the bus, and the map finds the device and the address inside it.
pub trait MemoryMap: Sized {
    /// The byte that a read of `address` gives.
    spec fn byte_at(&self, address: u16) -> u8;

    /// Whether `after` is this map once `data` has been written to
    /// `address`.
    spec fn written(&self, address: u16, data: u8, after: Self) -> bool;

    /// Reads the byte at `address`, which changes nothing.
    fn read(&mut self, address: u16) -> (data: u8)
        ensures
            data == old(self).byte_at(address),
            *final(self) == *old(self),
    ;

    /// Writes a byte to `address`. A write that fails changes nothing.
    fn write(&mut self, address: u16, data: u8) -> (result: Result<(), BusError>)
        ensures
            match result {
                Ok(_) => old(self).written(address, data, *final(self)),
                Err(_) => *final(self) == *old(self),
            },
    ;
}

/// One device on the bus, addressed from its own first byte.
pub trait BusDevice: Sized {
    /// The byte that a read of `address` gives.
    spec fn byte_at(&self, address: nat) -> u8;

    /// Whether `after` is this device once `data` has been written to
    /// `address`.
    spec fn written(&self, address: nat, data: u8, after: Self) -> bool;

    /// Reads the byte at `address`.
    fn read(&self, address: usize) -> (data: u8)
        ensures
            data == self.byte_at(address as nat),
    ;

    /// Writes a byte to `address`.
    fn write(&mut self, address: usize, data: u8)
        ensures
            old(self).written(address as nat, data, *final(self)),
    ;
}

/// The internal RAM.
pub struct RAM {
    memory: [u8; RAM_SIZE],
}

impl View for RAM {
    type V = Seq<u8>;

    closed spec fn view(&self) -> Seq<u8> {
        self.memory@
    }
}

/// RAM as it is when the console is switched on: all zero.
pub open spec fn blank_ram() -> Seq<u8> {
    Seq::new(RAM_SIZE as nat, |i: int| 0u8)
}

impl RAM {
    /// Blank RAM.
    pub fn new() -> (ram: RAM)
        ensures
            ram@ == blank_ram(),
    {
        let ram = RAM { memory: [0; RAM_SIZE] };
        assert(ram.memory@ =~= blank_ram());
        ram
    }

    /// The RAM always holds its 2 KiB.
    pub proof fn lemma_size(&self)
        ensures
            self@.len() == RAM_SIZE,
    {
    }
}

impl BusDevice for RAM {
    open spec fn byte_at(&self, address: nat) -> u8 {
        self@[(address % RAM_SIZE as nat) as int]
    }

    open spec fn written(&self, address: nat, data: u8, after: RAM) -> bool {
        after@ == self@.update((address % RAM_SIZE as nat) as int, data)
    }

    fn read(&self, address: usize) -> (data: u8) {
        self.memory[address % RAM_SIZE]
    }

    fn write(&mut self, address: usize, data: u8) {
        self.memory[address % RAM_SIZE] = data;
    }
}

/// The byte of program ROM that a ROM-local address shows, or zero where
/// the chip has no byte for it.
pub open spec fn rom_byte(prg: Seq<u8>, mapper: Nrom, address: nat) -> u8 {
    let offset = mapper.prg_offset(address);
    if offset < prg.len() {
        prg[offset as int]
    } else {
        0
    }
}

impl BusDevice for ROM {
    open spec fn byte_at(&self, address: nat) -> u8 {
        rom_byte(self.prg@, self.mapper, address)
    }

    /// A write changes nothing: the mapper has no registers and the chip is
    /// read-only.
    open spec fn written(&self, address: nat, data: u8, after: ROM) -> bool {
        after == *self
    }

    fn read(&self, address: usize) -> (data: u8) {
        let offset = self.mapper.prg_conversion(address);
        if offset < self.prg.len() {
            self.prg[offset]
        } else {
            0
        }
    }

    fn write(&mut self, address: usize, data: u8) {
    }
}

/// A pulse (square wave) channel.
#[derive(Clone, Copy, Debug, PartialEq, Eq, Structural)]
pub struct Pulse {
    /// `DDLC NNNN`: duty, envelope loop, constant volume, volume.
    pub vol: u8,
    /// `EPPP NSSS`: sweep unit.
    pub sweep: u8,
    /// Timer, low byte.
    pub lo: u8,
    /// `LLLL LHHH`: length counter load and timer, high bits.
    pub hi: u8,
}

impl Pulse {
    /// A silent channel.
    pub fn new() -> (pulse: Pulse)
        ensures
            pulse == (Pulse { vol: 0, sweep: 0, lo: 0, hi: 0 }),
    {
        Pulse { vol: 0x00, sweep: 0x00, lo: 0x00, hi: 0x00 }
    }
}

/// The triangle channel.
#[derive(Clone, Copy, Debug, PartialEq, Eq, Structural)]
pub struct Triangle {
    /// `CRRR RRRR`: linear counter.
    pub linear: u8,
    /// Timer, low byte.
    pub lo: u8,
    /// `LLLL LHHH`: length counter load and timer, high bits.
    pub hi: u8,
}

impl Triangle {
    /// A silent channel.
    pub fn new() -> (triangle: Triangle)
        ensures
            triangle == (Triangle { linear: 0, lo: 0, hi: 0 }),
    {
        Triangle { linear: 0x00, lo: 0x00, hi: 0x00 }
    }
}

/// The noise channel.
#[derive(Clone, Copy, Debug, PartialEq, Eq, Structural)]
pub struct Noise {
    /// `--LC NNNN`: envelope loop, constant volume, volume.
    pub vol: u8,
    /// `L--- PPPP`: loop and period.
    pub lo: u8,
    /// `LLLL L---`: length counter load.
    pub hi: u8,
}

impl Noise {
    /// A silent channel.
    pub fn new() -> (noise: Noise)
        ensures
            noise == (Noise { vol: 0, lo: 0, hi: 0 }),
    {
        Noise { vol: 0x00, lo: 0x00, hi: 0x00 }
    }
}

/// The delta modulation channel.
#[derive(Clone, Copy, Debug, PartialEq, Eq, Structural)]
pub struct DMC {
    /// `IL-- FFFF`: interrupt enable, loop, frequency.
    pub freq: u8,
    /// `-DDD DDDD`: direct load.
    pub raw: u8,
    /// Sample address.
    pub start: u8,
    /// Sample length.
    pub len: u8,
}

impl DMC {
    /// A silent channel.
    pub fn new() -> (dmc: DMC)
        ensures
            dmc == (DMC { freq: 0, raw: 0, start: 0, len: 0 }),
    {
        DMC { freq: 0x00, raw: 0x00, start: 0x00, len: 0x00 }
    }
}

/// The registers at `$4000`-`$4017`. They only keep what is written to
/// them, for the sound unit to look at.
#[derive(Clone, Copy, Debug, PartialEq, Eq, Structural)]
pub struct IORegisters {
    /// `$4000`-`$4003`
    pub pulse_1: Pulse,
    /// `$4004`-`$4007`
    pub pulse_2: Pulse,
    /// `$4008`, `$400A`, `$400B`
    pub triangle: Triangle,
    /// `$400C`, `$400E`, `$400F`
    pub noise: Noise,
    /// `$4010`-`$4013`
    pub dmc: DMC,
    /// `$4015`: channel switches
    pub control_status: u8,
    /// `$4017`: frame counter
    pub frame_counter: u8,
}

/// The registers as they are when the console is switched on: all zero.
pub open spec fn blank_io() -> IORegisters {
    IORegisters {
        pulse_1: Pulse { vol: 0, sweep: 0, lo: 0, hi: 0 },
        pulse_2: Pulse { vol: 0, sweep: 0, lo: 0, hi: 0 },
        triangle: Triangle { linear: 0, lo: 0, hi: 0 },
        noise: Noise { vol: 0, lo: 0, hi: 0 },
        dmc: DMC { freq: 0, raw: 0, start: 0, len: 0 },
        control_status: 0,
        frame_counter: 0,
    }
}

/// The registers after `data` has been written at `offset` from `$4000`.
/// The offsets `$09`, `$0D`, `$14` and `$16` keep nothing, and neither does
/// any offset past `$17`.
pub open spec fn io_written(io: IORegisters, offset: nat, data: u8) -> IORegisters {
    if offset == 0x00 {
        IORegisters { pulse_1: Pulse { vol: data, ..io.pulse_1 }, ..io }
    } else if offset == 0x01 {
        IORegisters { pulse_1: Pulse { sweep: data, ..io.pulse_1 }, ..io }
    } else if offset == 0x02 {
        IORegisters { pulse_1: Pulse { lo: data, ..io.pulse_1 }, ..io }
    } else if offset == 0x03 {
        IORegisters { pulse_1: Pulse { hi: data, ..io.pulse_1 }, ..io }
    } else if offset == 0x04 {
        IORegisters { pulse_2: Pulse { vol: data, ..io.pulse_2 }, ..io }
    } else if offset == 0x05 {
        IORegisters { pulse_2: Pulse { sweep: data, ..io.pulse_2 }, ..io }
    } else if offset == 0x06 {
        IORegisters { pulse_2: Pulse { lo: data, ..io.pulse_2 }, ..io }
    } else if offset == 0x07 {
        IORegisters { pulse_2: Pulse { hi: data, ..io.pulse_2 }, ..io }
    } else if offset == 0x08 {
        IORegisters { triangle: Triangle { linear: data, ..io.triangle }, ..io }
    } else if offset == 0x0A {
        IORegisters { triangle: Triangle { lo: data, ..io.triangle }, ..io }
    } else if offset == 0x0B {
        IORegisters { triangle: Triangle { hi: data, ..io.triangle }, ..io }
    } else if offset == 0x0C {
        IORegisters { noise: Noise { vol: data, ..io.noise }, ..io }
    } else if offset == 0x0E {
        IORegisters { noise: Noise { lo: data, ..io.noise }, ..io }
    } else if offset == 0x0F {
        IORegisters { noise: Noise { hi: data, ..io.noise }, ..io }
    } else if offset == 0x10 {
        IORegisters { dmc: DMC { freq: data, ..io.dmc }, ..io }
    } else if offset == 0x11 {
        IORegisters { dmc: DMC { raw: data, ..io.dmc }, ..io }
    } else if offset == 0x12 {
        IORegisters { dmc: DMC { start: data, ..io.dmc }, ..io }
    } else if offset == 0x13 {
        IORegisters { dmc: DMC { len: data, ..io.dmc }, ..io }
    } else if offset == 0x15 {
        IORegisters { control_status: data, ..io }
    } else if offset == 0x17 {
        IORegisters { frame_counter: data, ..io }
    } else {
        io
    }
}

impl IORegisters {
    /// The registers with nothing written to them yet.
    pub fn new() -> (io: IORegisters)
        ensures
            io == blank_io(),
    {
        IORegisters {
            pulse_1: Pulse::new(),
            pulse_2: Pulse::new(),
            triangle: Triangle::new(),
            noise: Noise::new(),
            dmc: DMC::new(),
            control_status: 0x00,
            frame_counter: 0x00,
        }
    }
}

impl BusDevice for IORegisters {
    /// The registers are write-only: every read gives zero.
    open spec fn byte_at(&self, address: nat) -> u8 {
        0
    }

    open spec fn written(&self, address: nat, data: u8, after: IORegisters) -> bool {
        after == io_written(*self, address, data)
    }

    fn read(&self, address: usize) -> (data: u8) {
        0
    }

    fn write(&mut self, address: usize, data: u8) {
        match address {
            0x00 => self.pulse_1.vol = data,
            0x01 => self.pulse_1.sweep = data,
            0x02 => self.pulse_1.lo = data,
            0x03 => self.pulse_1.hi = data,
            0x04 => self.pulse_2.vol = data,
            0x05 => self.pulse_2.sweep = data,
            0x06 => self.pulse_2.lo = data,
            0x07 => self.pulse_2.hi = data,
            0x08 => self.triangle.linear = data,
            0x0A => self.triangle.lo = data,
            0x0B => self.triangle.hi = data,
            0x0C => self.noise.vol = data,
            0x0E => self.noise.lo = data,
            0x0F => self.noise.hi = data,
            0x10 => self.dmc.freq = data,
            0x11 => self.dmc.raw = data,
            0x12 => self.dmc.start = data,
            0x13 => self.dmc.len = data,
            0x15 => self.control_status = data,
            0x17 => self.frame_counter = data,
            _ => {},
        }
    }
}

/// The bus with its devices.
pub struct Bus {
    ram: RAM,
    rom: ROM,
    io_registers: IORegisters,
}

/// Everything on the bus that a read or a write can tell apart.
pub struct BusState {
    /// The 2 KiB of RAM.
    pub ram: Seq<u8>,
    /// The sound and input registers.
    pub io: IORegisters,
    /// The program ROM of the cartridge.
    pub prg: Seq<u8>,
    /// The mapper of the cartridge.
    pub mapper: Nrom,
}

impl BusState {
    /// Whether this is a state that a `Bus` can be in: the RAM has its
    /// 2 KiB.
    pub open spec fn well_formed(self) -> bool {
        self.ram.len() == RAM_SIZE
    }
}

/// The device that answers at an address, and the address inside it.
pub open spec fn mapped(address: nat) -> (Device, nat) {
    if address <= RAM_END {
        (Device::Ram, address)
    } else if address <= PPU_END {
        (Device::Ppu, (address - PPU_START) as nat)
    } else if address <= APU_IO_END {
        (Device::IoRegisters, (address - APU_IO_START) as nat)
    } else if address <= TEST_MODE_END {
        (Device::TestMode, (address - TEST_MODE_START) as nat)
    } else if address < ROM_START {
        (Device::Expansion, (address - CARTRIDGE_START) as nat)
    } else {
        (Device::Rom, (address - ROM_START) as nat)
    }
}

/// The byte that a read of `address` gives. Only RAM and ROM answer;
/// everything else reads as zero.
#[verifier::opaque]
pub open spec fn bus_read(bus: BusState, address: u16) -> u8 {
    let (device, local) = mapped(address as nat);
    match device {
        Device::Ram => bus.ram[(local % RAM_SIZE as nat) as int],
        Device::Rom => rom_byte(bus.prg, bus.mapper, local),
        _ => 0,
    }
}

/// The bus after `data` has been written to `address`. Only RAM and the
/// registers keep anything.
#[verifier::opaque]
pub open spec fn bus_write(bus: BusState, address: u16, data: u8) -> BusState {
    let (device, local) = mapped(address as nat);
    match device {
        Device::Ram => BusState {
            ram: bus.ram.update((local % RAM_SIZE as nat) as int, data),
            ..bus
        },
        Device::IoRegisters => BusState { io: io_written(bus.io, local, data), ..bus },
        _ => bus,
    }
}

impl View for Bus {
    type V = BusState;

    closed spec fn view(&self) -> BusState {
        BusState {
            ram: self.ram@,
            io: self.io_registers,
            prg: self.rom.prg@,
            mapper: self.rom.mapper,
        }
    }
}

impl Bus {
    /// A bus with blank RAM, blank registers and the cartridge of the
    /// image.
    pub fn new(rom: Vec<u8>) -> (result: Result<Bus, ROMError>)
        requires
            is_complete(rom@),
        ensures
            match result {
                Ok(bus) => has_magic(rom@) && bus@ == (BusState {
                    ram: blank_ram(),
                    io: blank_io(),
                    prg: rom@.subrange(prg_start(rom@[6]) as int, prg_end(rom@) as int),
                    mapper: Nrom {
                        num_prg_banks: rom@[4] as usize,
                        num_chr_banks: rom@[5] as usize,
                    },
                }),
                Err(ROMError::InvalidHeader { header_bytes }) => !has_magic(rom@)
                    && header_bytes@ == rom@.subrange(0, 16),
            },
    {
        match ROM::new(rom) {
            Ok(cartridge) => Ok(
                Bus { ram: RAM::new(), rom: cartridge, io_registers: IORegisters::new() },
            ),
            Err(error) => Err(error),
        }
    }

    /// A bus is always well formed.
    pub proof fn lemma_well_formed(&self)
        ensures
            self@.well_formed(),
    {
        self.ram.lemma_size();
    }

    /// The device that answers at an address, and the address inside it.
    /// Only an address that does not fit the bus has none.
    pub fn get_mapped_device_and_real_address(&self, address: usize) -> (found: Result<
        (Device, usize),
        BusError,
    >)
        ensures
            match found {
                Ok((device, real_address)) => address <= CARTRIDGE_END && device == mapped(
                    address as nat,
                ).0 && real_address == mapped(address as nat).1,
                Err(BusError::Unmapped { address: refused }) => address > CARTRIDGE_END
                    && refused == address,
            },
    {
        if address <= RAM_END {
            Ok((Device::Ram, address))
        } else if address <= PPU_END {
            Ok((Device::Ppu, address - PPU_START))
        } else if address <= APU_IO_END {
            Ok((Device::IoRegisters, address - APU_IO_START))
        } else if address <= TEST_MODE_END {
            Ok((Device::TestMode, address - TEST_MODE_START))
        } else if address < ROM_START {
            Ok((Device::Expansion, address - CARTRIDGE_START))
        } else if address <= CARTRIDGE_END {
            Ok((Device::Rom, address - ROM_START))
        } else {
            Err(BusError::Unmapped { address })
        }
    }
}

impl MemoryMap for Bus {
    open spec fn byte_at(&self, address: u16) -> u8 {
        bus_read(self@, address)
    }

    open spec fn written(&self, address: u16, data: u8, after: Bus) -> bool {
        after@ == bus_write(self@, address, data)
    }

    fn read(&mut self, address: u16) -> (data: u8) {
        reveal(bus_read);
        match self.get_mapped_device_and_real_address(address as usize) {
            Ok((Device::Ram, real_address)) => self.ram.read(real_address),
            Ok((Device::IoRegisters, real_address)) => self.io_registers.read(real_address),
            Ok((Device::Rom, real_address)) => self.rom.read(real_address),
            _ => 0,
        }
    }

    /// On this bus every address has a device, and no write fails.
    fn write(&mut self, address: u16, data: u8) -> (result: Result<(), BusError>)
        ensures
            result is Ok,
    {
        reveal(bus_write);
        match self.get_mapped_device_and_real_address(address as usize) {
            Ok((Device::Ram, real_address)) => self.ram.write(real_address, data),
            Ok((Device::IoRegisters, real_address)) => self.io_registers.write(
                real_address,
                data,
            ),
            Ok((Device::Rom, real_address)) => self.rom.write(real_address, data),
            _ => {},
        }
        Ok(())
    }
}


/// The RAM shows up four times in its window: a byte written anywhere in
/// `$0000`-`$1FFF` is read back there and at every address of the window
/// that differs from it by a multiple of 2 KiB, such as the one with bit 11
/// flipped.
pub proof fn lemma_ram_mirror(bus: BusState, address: u16, data: u8, other: u16)
    requires
        bus.well_formed(),
        address <= RAM_END,
    ensures
        bus_read(bus_write(bus, address, data), address) == data,
        bus_read(bus_write(bus, address, data), address ^ 0x0800) == data,
        other <= RAM_END && other % 0x800 == address % 0x800 ==> bus_read(
            bus_write(bus, address, data),
            other,
        ) == data,
{
    reveal(bus_read);
    reveal(bus_write);
    assert(address <= 0x1FFF ==> (address ^ 0x0800) <= 0x1FFF && (address ^ 0x0800) % 0x800
        == address % 0x800) by (bit_vector);
}

/// A write reaches one byte only: every address that does not show the
/// same byte of RAM reads as before.
pub proof fn lemma_write_is_local(bus: BusState, address: u16, data: u8, other: u16)
    requires
        bus.well_formed(),
        !(address <= RAM_END && other <= RAM_END && other % 0x800 == address % 0x800),
    ensures
        bus_read(bus_write(bus, address, data), other) == bus_read(bus, other),
        bus_write(bus, address, data).well_formed(),
{
    reveal(bus_read);
    reveal(bus_write);
}

/// A write leaves the bus well formed and the cartridge as it is.
pub proof fn lemma_write_keeps_cartridge(bus: BusState, address: u16, data: u8)
    ensures
        bus_write(bus, address, data).prg == bus.prg,
        bus_write(bus, address, data).mapper == bus.mapper,
        bus.well_formed() ==> bus_write(bus, address, data).well_formed(),
{
    reveal(bus_write);
}

/// Nothing behind the registers keeps a write: the bus is after it as it
/// was before, so the program ROM reads the same and every later fetch
/// finds the same instructions.
pub proof fn lemma_rom_is_read_only(bus: BusState, address: u16, data: u8)
    requires
        address > APU_IO_END,
    ensures
        bus_write(bus, address, data) == bus,
{
    reveal(bus_write);
}

/// No write changes what the program ROM shows.
pub proof fn lemma_rom_is_constant(bus: BusState, address: u16, data: u8, other: u16)
    requires
        other >= ROM_START,
    ensures
        bus_read(bus_write(bus, address, data), other) == bus_read(bus, other),
{
    reveal(bus_read);
    reveal(bus_write);
}

} // verus!
