//! The processor as it runs: registers, the bus it owns, and one method for
//! every fetch, instruction and interrupt. Each method is proved to do to
//! the processor what its counterpart in [`Machine`] does to the model.

use vstd::prelude::*;
use crate::bus::bus::{Bus, BusState, MemoryMap, blank_ram, blank_io};
use crate::cpu::laws::{lemma_begun_frame, lemma_tick_counts};
use crate::cpu::listing::{push_instruction_text, push_operand_dump};
use crate::cpu::machine::{Machine, IRQ_VECTOR, NMI_VECTOR, RESET_VECTOR, STACK_PAGE,
    pays_for_page_cross, ticks_through};
use crate::cpu::opcode::{AddressingMode, DecodedOpcode, DecodeError, Instruction, Opcode,
    opcode_matrix};
use crate::cpu::status::{StatusFlags, flag, with_flag, pushed_status};
use crate::cpu::word::{add8, add16, high, decrement8, decrement16, difference8, high_byte,
    increment8, low_byte, make_word, sign_extend, sum8, sum16};
use crate::rom::mapper::Nrom;
use crate::text::{push_char, push_decimal_number, push_hex_byte, push_hex_word, push_padded};
use crate::rom::rom::{has_magic, is_complete, prg_end, prg_start};

verus! {

/// The processor and, through the bus, the whole machine.
pub struct CPU {
    /// Accumulator.
    pub a: u8,
    /// Index register X.
    pub x: u8,
    /// Index register Y.
    pub y: u8,
    /// Program counter.
    pub pc: u16,
    /// Stack pointer.
    pub sp: u8,
    /// Status register.
    pub p: u8,
    pub bus: Bus,
    /// Ticks that the instruction in progress still takes.
    pub cycles: u8,
    /// The opcode byte of the instruction in progress.
    pub current_instruction: u8,
    /// Ticks since power-on.
    pub total_cycles: u32,
    /// The instruction in progress, decoded.
    pub current_opcode: DecodedOpcode,
    /// The operand of the instruction in progress: its address or, where
    /// the addressing mode has none, the operand itself.
    pub current_fetched_word: u16,
}

impl View for CPU {
    type V = Machine;

    open spec fn view(&self) -> Machine {
        Machine {
            a: self.a,
            x: self.x,
            y: self.y,
            pc: self.pc,
            sp: self.sp,
            p: self.p,
            bus: self.bus@,
            cycles: self.cycles,
            current_instruction: self.current_instruction,
            total_cycles: self.total_cycles,
            current_opcode: self.current_opcode,
            current_fetched_word: self.current_fetched_word,
        }
    }
}

impl CPU {
    /// The machine as it is switched on with a cartridge: blank RAM, PC at
    /// `$C000`, the stack pointer at `$FD`, interrupts disabled, and the
    /// seven cycles of the start-up sequence behind it.
    pub open spec fn power_on(image: Seq<u8>) -> Machine {
        Machine {
            a: 0,
            x: 0,
            y: 0,
            pc: 0xC000,
            sp: 0xFD,
            p: 0x24,
            bus: BusState {
                ram: blank_ram(),
                io: blank_io(),
                prg: image.subrange(prg_start(image[6]) as int, prg_end(image) as int),
                mapper: Nrom {
                    num_prg_banks: image[4] as usize,
                    num_chr_banks: image[5] as usize,
                },
            },
            cycles: 0,
            current_instruction: 0,
            total_cycles: 7,
            current_opcode: DecodedOpcode {
                instruction: Instruction::NOP,
                mode: AddressingMode::Absolute,
                cycles: 0,
            },
            current_fetched_word: 0,
        }
    }

    /// A processor with the cartridge of the image plugged in.
    pub fn new(rom_vector: Vec<u8>) -> (cpu: CPU)
        requires
            is_complete(rom_vector@),
            has_magic(rom_vector@),
        ensures
            cpu@ == CPU::power_on(rom_vector@),
    {
        CPU {
            a: 0x00,
            x: 0x00,
            y: 0x00,
            pc: 0xC000,
            sp: 0xFD,
            p: 0x24,
            bus: Bus::new(rom_vector).unwrap(),
            cycles: 0,
            current_instruction: 0,
            total_cycles: 7,
            current_opcode: DecodedOpcode {
                instruction: Instruction::NOP,
                mode: AddressingMode::Absolute,
                cycles: 0,
            },
            current_fetched_word: 0x0000,
        }
    }

    /// Whether a flag of the status register is set.
    pub fn get_status(&self, flag: StatusFlags) -> (on: bool)
        ensures
            on == self@.flag(flag),
    {
        reveal(crate::cpu::status::flag);
        self.p & flag.bit() != 0
    }

    /// Sets or clears a flag of the status register.
    pub fn set_status(&mut self, flag: StatusFlags, state: bool)
        ensures
            final(self)@ == old(self)@.set_flag(flag, state),
    {
        reveal(with_flag);
        if state {
            self.p = self.p | flag.bit();
        } else {
            self.p = self.p & !flag.bit();
        }
    }

    /// Sets Z and N from a result.
    fn set_zero_and_negative(&mut self, result: u8)
        ensures
            final(self)@ == old(self)@.set_zn(result),
    {
        self.set_status(StatusFlags::Z, result == 0);
        self.set_status(StatusFlags::N, result >= 0x80);
    }

    /// Writes a byte through the bus, on which no write fails.
    fn write(&mut self, address: u16, data: u8)
        ensures
            final(self)@ == old(self)@.write(address, data),
    {
        let _ = self.bus.write(address, data);
    }

    /// Pushes a byte on the stack.
    fn push(&mut self, data: u8)
        ensures
            final(self)@ == old(self)@.push(data),
    {
        self.write(make_word(self.sp, STACK_PAGE), data);
        self.sp = decrement8(self.sp);
    }

    /// Pushes a word on the stack, high byte first.
    fn push_word(&mut self, data: u16)
        ensures
            final(self)@ == old(self)@.push_word(data),
    {
        self.push(high_byte(data));
        self.push(low_byte(data));
    }

    /// Pulls a byte off the stack.
    fn pull(&mut self) -> (data: u8)
        ensures
            final(self)@ == old(self)@.pull(),
            data == old(self)@.pull().top(),
    {
        self.sp = increment8(self.sp);
        self.bus.read(make_word(self.sp, STACK_PAGE))
    }

    /// Reads the word at an address and the address after it.
    fn read_word(&mut self, address: u16) -> (data: u16)
        ensures
            data == old(self)@.read_word(address),
            *final(self) == *old(self),
    {
        let lo = self.bus.read(address);
        let hi = self.bus.read(sum16(address, 1));
        make_word(lo, hi)
    }

    /// Reads the word that the first page holds at `pointer`.
    fn read_zero_page_word(&mut self, pointer: u8) -> (data: u16)
        ensures
            data == old(self)@.zero_page_word(pointer),
            *final(self) == *old(self),
    {
        let lo = self.bus.read(make_word(pointer, 0));
        let hi = self.bus.read(make_word(increment8(pointer), 0));
        make_word(lo, hi)
    }

    /// Reads the byte at PC and steps over it.
    fn next_operand_byte(&mut self) -> (data: u8)
        ensures
            data == old(self)@.read(old(self).pc),
            final(self)@ == (Machine { pc: add16(old(self).pc, 1), ..old(self)@ }),
    {
        let data = self.bus.read(self.pc);
        self.pc = sum16(self.pc, 1);
        data
    }

    /// Reads the word at PC and steps over it.
    fn next_operand_word(&mut self) -> (data: u16)
        ensures
            data == old(self)@.absolute_operand(),
            final(self)@ == (Machine { pc: add16(old(self).pc, 2), ..old(self)@ }),
    {
        let data = self.read_word(self.pc);
        self.pc = sum16(self.pc, 2);
        data
    }

    // ----- addressing modes -----

    /// Fetches the operand as the addressing mode says, and says with 1
    /// that the indexing crossed a page, else 0.
    fn fetch(&mut self, am: AddressingMode) -> (page_crossed: u8)
        ensures
            final(self)@ == old(self)@.fetched(am),
            page_crossed == if old(self)@.crosses_page(am) { 1u8 } else { 0u8 },
    {
        match am {
            AddressingMode::ZeroPage => self.fetch_zero_page(),
            AddressingMode::IndexedZeroPageX => self.fetch_zero_page_x(),
            AddressingMode::IndexedZeroPageY => self.fetch_zero_page_y(),
            AddressingMode::Absolute => self.fetch_absolute(),
            AddressingMode::IndexedAbsoluteX => self.fetch_absolute_x_indexed(),
            AddressingMode::IndexedAbsoluteY => self.fetch_absolute_y_indexed(),
            AddressingMode::Indirect => self.fetch_indirect(),
            AddressingMode::Implied => self.fetch_implied(),
            AddressingMode::Accumulator => self.fetch_accumulator(),
            AddressingMode::Immediate => self.fetch_immediate(),
            AddressingMode::Relative => self.fetch_relative(),
            AddressingMode::IndexedIndirect => self.fetch_indexed_indirect(),
            AddressingMode::IndirectIndexed => self.fetch_indirect_indexed(),
        }
    }

    /// Accumulator: the operand is A itself.
    fn fetch_accumulator(&mut self) -> (page_crossed: u8)
        ensures
            final(self)@ == old(self)@.fetched(AddressingMode::Accumulator),
            page_crossed == 0,
    {
        self.current_fetched_word = make_word(self.a, 0);
        0
    }

    /// Immediate: the operand is the byte behind the opcode.
    fn fetch_immediate(&mut self) -> (page_crossed: u8)
        ensures
            final(self)@ == old(self)@.fetched(AddressingMode::Immediate),
            page_crossed == 0,
    {
        let operand = self.next_operand_byte();
        self.current_fetched_word = make_word(operand, 0);
        0
    }

    /// Zero page: the byte behind the opcode is an address in the first page.
    fn fetch_zero_page(&mut self) -> (page_crossed: u8)
        ensures
            final(self)@ == old(self)@.fetched(AddressingMode::ZeroPage),
            page_crossed == 0,
    {
        let address = self.next_operand_byte();
        self.current_fetched_word = make_word(address, 0);
        0
    }

    /// Zero page indexed by X, wrapping within the first page.
    fn fetch_zero_page_x(&mut self) -> (page_crossed: u8)
        ensures
            final(self)@ == old(self)@.fetched(AddressingMode::IndexedZeroPageX),
            page_crossed == 0,
    {
        let address = self.next_operand_byte();
        self.current_fetched_word = make_word(sum8(address, self.x), 0);
        0
    }

    /// Zero page indexed by Y, wrapping within the first page.
    fn fetch_zero_page_y(&mut self) -> (page_crossed: u8)
        ensures
            final(self)@ == old(self)@.fetched(AddressingMode::IndexedZeroPageY),
            page_crossed == 0,
    {
        let address = self.next_operand_byte();
        self.current_fetched_word = make_word(sum8(address, self.y), 0);
        0
    }

    /// Absolute: the two bytes behind the opcode are the address.
    fn fetch_absolute(&mut self) -> (page_crossed: u8)
        ensures
            final(self)@ == old(self)@.fetched(AddressingMode::Absolute),
            page_crossed == 0,
    {
        self.current_fetched_word = self.next_operand_word();
        0
    }

    /// Absolute indexed by X. Says whether the index carried into the high byte.
    fn fetch_absolute_x_indexed(&mut self) -> (page_crossed: u8)
        ensures
            final(self)@ == old(self)@.fetched(AddressingMode::IndexedAbsoluteX),
            page_crossed == if old(self)@.crosses_page(AddressingMode::IndexedAbsoluteX) {
                1u8
            } else {
                0u8
            },
    {
        let base = self.next_operand_word();
        self.current_fetched_word = sum16(base, self.x as u16);
        self._extra_cycles(self.current_fetched_word, high_byte(base))
    }

    /// Absolute indexed by Y. Says whether the index carried into the high byte.
    fn fetch_absolute_y_indexed(&mut self) -> (page_crossed: u8)
        ensures
            final(self)@ == old(self)@.fetched(AddressingMode::IndexedAbsoluteY),
            page_crossed == if old(self)@.crosses_page(AddressingMode::IndexedAbsoluteY) {
                1u8
            } else {
                0u8
            },
    {
        let base = self.next_operand_word();
        self.current_fetched_word = sum16(base, self.y as u16);
        self._extra_cycles(self.current_fetched_word, high_byte(base))
    }

    /// The pointer's high byte is not carried into: behind the last byte
    /// of a page the processor reads the first byte of the same page.
    fn fetch_indirect(&mut self) -> (page_crossed: u8)
        ensures
            final(self)@ == old(self)@.fetched(AddressingMode::Indirect),
            page_crossed == 0,
    {
        let pointer = self.next_operand_word();
        let lo = self.bus.read(pointer);
        let hi = if low_byte(pointer) == 0xFF {
            self.bus.read(make_word(0x00, high_byte(pointer)))
        } else {
            self.bus.read(pointer + 1)
        };
        self.current_fetched_word = make_word(lo, hi);
        0
    }

    /// Implied: there is no operand.
    fn fetch_implied(&mut self) -> (page_crossed: u8)
        ensures
            final(self)@ == old(self)@.fetched(AddressingMode::Implied),
            page_crossed == 0,
    {
        self.current_fetched_word = 0x0000;
        0
    }

    /// Relative: the byte behind the opcode is a signed distance.
    fn fetch_relative(&mut self) -> (page_crossed: u8)
        ensures
            final(self)@ == old(self)@.fetched(AddressingMode::Relative),
            page_crossed == 0,
    {
        let offset = self.next_operand_byte();
        self.current_fetched_word = sign_extend(offset);
        0
    }

    /// Indexed indirect: the address is stored in the first page at the operand plus X.
    fn fetch_indexed_indirect(&mut self) -> (page_crossed: u8)
        ensures
            final(self)@ == old(self)@.fetched(AddressingMode::IndexedIndirect),
            page_crossed == 0,
    {
        let pointer = self.next_operand_byte();
        self.current_fetched_word = self.read_zero_page_word(sum8(pointer, self.x));
        0
    }

    /// Indirect indexed: the address stored in the first page at the operand, plus Y. Says
    /// whether Y carried into the high byte.
    fn fetch_indirect_indexed(&mut self) -> (page_crossed: u8)
        ensures
            final(self)@ == old(self)@.fetched(AddressingMode::IndirectIndexed),
            page_crossed == if old(self)@.crosses_page(AddressingMode::IndirectIndexed) {
                1u8
            } else {
                0u8
            },
    {
        let pointer = self.next_operand_byte();
        let base = self.read_zero_page_word(pointer);
        self.current_fetched_word = sum16(base, self.y as u16);
        self._extra_cycles(self.current_fetched_word, high_byte(base))
    }

    /// 1 if `addr` lies in another page than the one numbered `hi`, else 0.
    fn _extra_cycles(&self, addr: u16, hi: u8) -> (extra: u8)
        ensures
            extra == if high(addr) != hi { 1u8 } else { 0u8 },
    {
        if high_byte(addr) != hi {
            1
        } else {
            0
        }
    }

    // ----- instructions -----

    /// The operand of the instruction in progress.
    fn fetch_operand(&mut self) -> (value: u8)
        ensures
            value == old(self)@.operand(),
            *final(self) == *old(self),
    {
        match self.current_opcode.mode {
            AddressingMode::Immediate | AddressingMode::Accumulator | AddressingMode::Relative => {
                low_byte(self.current_fetched_word)
            },
            _ => self.bus.read(self.current_fetched_word),
        }
    }

    /// The byte that a shift or a rotation works on.
    fn fetch_shift_operand(&mut self, mode: AddressingMode) -> (value: u8)
        ensures
            value == old(self)@.shift_operand(mode),
            *final(self) == *old(self),
    {
        match mode {
            AddressingMode::Accumulator => self.a,
            _ => self.fetch_operand(),
        }
    }

    /// Puts the result of a shift or a rotation where its operand was.
    fn store_shifted(&mut self, mode: AddressingMode, result: u8)
        ensures
            final(self)@ == old(self)@.store_shifted(mode, result),
    {
        match mode {
            AddressingMode::Accumulator => self.a = result,
            _ => self.write(self.current_fetched_word, result),
        }
    }

    /// `ADC`: adds the operand and the carry to A.
    fn add_with_carry(&mut self) -> (extra: u8)
        ensures
            final(self)@ == old(self)@.adc(),
            extra == 1,
    {
        let operand = self.fetch_operand();
        let carry: u16 = if self.get_status(StatusFlags::C) {
            1
        } else {
            0
        };
        let sum: u16 = self.a as u16 + operand as u16 + carry;
        let result: u8 = (sum % 256) as u8;
        let overflow = (!(self.a ^ operand) & (self.a ^ result)) & 0x80 != 0;
        self.set_status(StatusFlags::C, sum > 0xFF);
        self.set_status(StatusFlags::Z, result == 0);
        self.set_status(StatusFlags::V, overflow);
        self.set_status(StatusFlags::N, result >= 0x80);
        self.a = result;
        1
    }

    /// `SBC`: subtracts the operand from A, and one more if the carry is clear.
    fn subtract_with_carry(&mut self) -> (extra: u8)
        ensures
            final(self)@ == old(self)@.sbc(),
            extra == 1,
    {
        let operand = self.fetch_operand();
        let borrow: i16 = if self.get_status(StatusFlags::C) {
            0
        } else {
            1
        };
        let difference: i16 = self.a as i16 - operand as i16 - borrow;
        let result: u8 = if difference < 0 {
            (difference + 256) as u8
        } else {
            difference as u8
        };
        let overflow = (self.a ^ operand) & 0x80 != 0 && (self.a ^ result) & 0x80 != 0;
        self.set_status(StatusFlags::C, difference >= 0);
        self.set_status(StatusFlags::Z, result == 0);
        self.set_status(StatusFlags::V, overflow);
        self.set_status(StatusFlags::N, result >= 0x80);
        self.a = result;
        1
    }

    /// `AND`: A AND the operand.
    fn logical_and(&mut self) -> (extra: u8)
        ensures
            final(self)@ == old(self)@.and(),
            extra == 1,
    {
        let operand = self.fetch_operand();
        self.a = self.a & operand;
        self.set_zero_and_negative(self.a);
        1
    }

    /// `ORA`: A OR the operand.
    fn logical_inclusive_or(&mut self) -> (extra: u8)
        ensures
            final(self)@ == old(self)@.ora(),
            extra == 1,
    {
        let operand = self.fetch_operand();
        self.a = self.a | operand;
        self.set_zero_and_negative(self.a);
        1
    }

    /// `EOR`: A exclusive-or the operand.
    fn exclusive_or(&mut self) -> (extra: u8)
        ensures
            final(self)@ == old(self)@.eor(),
            extra == 1,
    {
        let operand = self.fetch_operand();
        self.a = self.a ^ operand;
        self.set_zero_and_negative(self.a);
        1
    }

    /// `ASL`: shifts A or memory left by one bit; bit 7 goes to the carry.
    fn arithmetic_shift_left(&mut self, mode: AddressingMode) -> (extra: u8)
        ensures
            final(self)@ == old(self)@.asl(mode),
            extra == 0,
    {
        let operand = self.fetch_shift_operand(mode);
        let result: u8 = ((operand as u16 * 2) % 256) as u8;
        self.set_status(StatusFlags::C, operand >= 0x80);
        self.set_zero_and_negative(result);
        self.store_shifted(mode, result);
        0
    }

    /// `LSR`: shifts A or memory right by one bit; bit 0 goes to the carry.
    fn logical_shift_right(&mut self, mode: AddressingMode) -> (extra: u8)
        ensures
            final(self)@ == old(self)@.lsr(mode),
            extra == 0,
    {
        let operand = self.fetch_shift_operand(mode);
        let result: u8 = operand / 2;
        self.set_status(StatusFlags::C, operand % 2 == 1);
        self.set_zero_and_negative(result);
        self.store_shifted(mode, result);
        0
    }

    /// `ROL`: rotates A or memory left through the carry.
    fn rotate_left(&mut self, mode: AddressingMode) -> (extra: u8)
        ensures
            final(self)@ == old(self)@.rol(mode),
            extra == 0,
    {
        let operand = self.fetch_shift_operand(mode);
        let carry: u16 = if self.get_status(StatusFlags::C) {
            1
        } else {
            0
        };
        let result: u8 = ((operand as u16 * 2 + carry) % 256) as u8;
        self.set_status(StatusFlags::C, operand >= 0x80);
        self.set_zero_and_negative(result);
        self.store_shifted(mode, result);
        0
    }

    /// `ROR`: rotates A or memory right through the carry.
    fn rotate_right(&mut self, mode: AddressingMode) -> (extra: u8)
        ensures
            final(self)@ == old(self)@.ror(mode),
            extra == 0,
    {
        let operand = self.fetch_shift_operand(mode);
        let carry: u8 = if self.get_status(StatusFlags::C) {
            128
        } else {
            0
        };
        let result: u8 = operand / 2 + carry;
        self.set_status(StatusFlags::C, operand % 2 == 1);
        self.set_zero_and_negative(result);
        self.store_shifted(mode, result);
        0
    }

    /// `BIT`: tests the operand against A without changing either.
    fn bit_test(&mut self) -> (extra: u8)
        ensures
            final(self)@ == old(self)@.bit(),
            extra == 0,
    {
        let operand = self.fetch_operand();
        self.set_status(StatusFlags::Z, self.a & operand == 0);
        self.set_status(StatusFlags::N, operand >= 0x80);
        self.set_status(StatusFlags::V, operand & 0x40 != 0);
        0
    }

    /// Takes a branch: PC moves by the fetched distance, for one cycle, or
    /// two if that leaves the page.
    fn _branch_helper(&mut self)
        ensures
            final(self)@ == old(self)@.branch_taken(),
    {
        let branch_address = sum16(self.pc, self.current_fetched_word);
        if high_byte(branch_address) != high_byte(self.pc) {
            self.cycles = sum8(self.cycles, 2);
        } else {
            self.cycles = sum8(self.cycles, 1);
        }
        self.pc = branch_address;
    }

    /// Branches if the flag has the wanted value.
    fn branch_on(&mut self, flag: StatusFlags, wanted: bool) -> (extra: u8)
        ensures
            final(self)@ == old(self)@.branch(flag, wanted),
            extra == 0,
    {
        if self.get_status(flag) == wanted {
            self._branch_helper();
        }
        0
    }

    /// `BCC`: branches if the carry is clear.
    fn branch_if_carry_clear(&mut self) -> (extra: u8)
        ensures
            final(self)@ == old(self)@.branch(StatusFlags::C, false),
            extra == 0,
    {
        self.branch_on(StatusFlags::C, false)
    }

    /// `BCS`: branches if the carry is set.
    fn branch_if_carry_set(&mut self) -> (extra: u8)
        ensures
            final(self)@ == old(self)@.branch(StatusFlags::C, true),
            extra == 0,
    {
        self.branch_on(StatusFlags::C, true)
    }

    /// `BEQ`: branches if Z is set.
    fn branch_if_equal(&mut self) -> (extra: u8)
        ensures
            final(self)@ == old(self)@.branch(StatusFlags::Z, true),
            extra == 0,
    {
        self.branch_on(StatusFlags::Z, true)
    }

    /// `BNE`: branches if Z is clear.
    fn branch_if_not_equal(&mut self) -> (extra: u8)
        ensures
            final(self)@ == old(self)@.branch(StatusFlags::Z, false),
            extra == 0,
    {
        self.branch_on(StatusFlags::Z, false)
    }

    /// `BMI`: branches if N is set.
    fn branch_if_minus(&mut self) -> (extra: u8)
        ensures
            final(self)@ == old(self)@.branch(StatusFlags::N, true),
            extra == 0,
    {
        self.branch_on(StatusFlags::N, true)
    }

    /// `BPL`: branches if N is clear.
    fn branch_if_positive(&mut self) -> (extra: u8)
        ensures
            final(self)@ == old(self)@.branch(StatusFlags::N, false),
            extra == 0,
    {
        self.branch_on(StatusFlags::N, false)
    }

    /// `BVC`: branches if V is clear.
    fn branch_if_overflow_clear(&mut self) -> (extra: u8)
        ensures
            final(self)@ == old(self)@.branch(StatusFlags::V, false),
            extra == 0,
    {
        self.branch_on(StatusFlags::V, false)
    }

    /// `BVS`: branches if V is set.
    fn branch_if_overflow_set(&mut self) -> (extra: u8)
        ensures
            final(self)@ == old(self)@.branch(StatusFlags::V, true),
            extra == 0,
    {
        self.branch_on(StatusFlags::V, true)
    }

    /// Enters an interrupt routine: pushes PC and a copy of P, disables
    /// interrupts and takes PC from the vector.
    fn enter_interrupt(&mut self, vector: u16, from_instruction: bool)
        ensures
            final(self)@ == old(self)@.interrupted(vector, from_instruction),
    {
        self.push_word(self.pc);
        let mut status = self.p | StatusFlags::U.bit();
        if from_instruction {
            status = status | StatusFlags::B.bit();
        } else {
            status = status & !StatusFlags::B.bit();
        }
        assert(status == pushed_status(self.p, from_instruction)) by {
            reveal(with_flag);
            let p = self.p;
            assert((p | 0x20u8) | 0x10u8 == (p | 0x10u8) | 0x20u8 && (p | 0x20u8) & !0x10u8 == (p
                & !0x10u8) | 0x20u8) by (bit_vector);
        }
        self.push(status);
        self.set_status(StatusFlags::I, true);
        self.pc = self.read_word(vector);
    }

    /// `BRK`: steps over the byte behind the opcode and enters the interrupt routine, with
    /// the break flag set in the copy of P on the stack.
    fn force_interrupt(&mut self) -> (extra: u8)
        ensures
            final(self)@ == old(self)@.brk(),
            extra == 0,
    {
        self.pc = sum16(self.pc, 1);
        self.enter_interrupt(IRQ_VECTOR, true);
        0
    }

    /// `CLC`: clears the carry.
    fn clear_carry_flag(&mut self) -> (extra: u8)
        ensures
            final(self)@ == old(self)@.set_flag(StatusFlags::C, false),
            extra == 0,
    {
        self.set_status(StatusFlags::C, false);
        0
    }

    /// `CLD`. Decimal mode changes nothing in this processor; the flag is kept all the same.
    fn clear_decimal_mode(&mut self) -> (extra: u8)
        ensures
            final(self)@ == old(self)@.set_flag(StatusFlags::D, false),
            extra == 0,
    {
        self.set_status(StatusFlags::D, false);
        0
    }

    /// `CLI`: lets interrupt requests through.
    fn clear_interrupt_disable(&mut self) -> (extra: u8)
        ensures
            final(self)@ == old(self)@.set_flag(StatusFlags::I, false),
            extra == 0,
    {
        self.set_status(StatusFlags::I, false);
        0
    }

    /// `CLV`: clears the overflow flag.
    fn clear_overflow_flag(&mut self) -> (extra: u8)
        ensures
            final(self)@ == old(self)@.set_flag(StatusFlags::V, false),
            extra == 0,
    {
        self.set_status(StatusFlags::V, false);
        0
    }

    /// `SEC`: sets the carry.
    fn set_carry_flag(&mut self) -> (extra: u8)
        ensures
            final(self)@ == old(self)@.set_flag(StatusFlags::C, true),
            extra == 0,
    {
        self.set_status(StatusFlags::C, true);
        0
    }

    /// `SED`: sets the decimal flag.
    fn set_decimal_flag(&mut self) -> (extra: u8)
        ensures
            final(self)@ == old(self)@.set_flag(StatusFlags::D, true),
            extra == 0,
    {
        self.set_status(StatusFlags::D, true);
        0
    }

    /// `SEI`: holds interrupt requests back.
    fn set_interrupt_disable(&mut self) -> (extra: u8)
        ensures
            final(self)@ == old(self)@.set_flag(StatusFlags::I, true),
            extra == 0,
    {
        self.set_status(StatusFlags::I, true);
        0
    }

    /// Sets the flags of `register_value - M`.
    fn _compare_helper(&mut self, register_value: u8)
        ensures
            final(self)@ == old(self)@.compare(register_value),
    {
        let operand = self.fetch_operand();
        self.set_status(StatusFlags::C, register_value >= operand);
        self.set_status(StatusFlags::Z, register_value == operand);
        self.set_status(StatusFlags::N, difference8(register_value, operand) >= 0x80);
    }

    /// `CMP`: compares A with the operand.
    fn compare(&mut self) -> (extra: u8)
        ensures
            final(self)@ == old(self)@.compare(old(self).a),
            extra == 1,
    {
        self._compare_helper(self.a);
        1
    }

    /// `CPX`: compares X with the operand.
    fn compare_x_register(&mut self) -> (extra: u8)
        ensures
            final(self)@ == old(self)@.compare(old(self).x),
            extra == 1,
    {
        self._compare_helper(self.x);
        1
    }

    /// `CPY`: compares Y with the operand.
    fn compare_y_register(&mut self) -> (extra: u8)
        ensures
            final(self)@ == old(self)@.compare(old(self).y),
            extra == 1,
    {
        self._compare_helper(self.y);
        1
    }

    /// One less than the operand, with Z and N set from the result.
    fn _decrement_helper(&mut self, operand: u8) -> (new: u8)
        ensures
            new == add8(operand, -1),
            final(self)@ == old(self)@.set_zn(new),
    {
        let new = decrement8(operand);
        self.set_zero_and_negative(new);
        new
    }

    /// One more than the operand, with Z and N set from the result.
    fn _increment_helper(&mut self, operand: u8) -> (new: u8)
        ensures
            new == add8(operand, 1),
            final(self)@ == old(self)@.set_zn(new),
    {
        let new = increment8(operand);
        self.set_zero_and_negative(new);
        new
    }

    /// `DEC`: one less in memory.
    fn decrement_memory(&mut self) -> (extra: u8)
        ensures
            final(self)@ == old(self)@.step_memory(-1),
            extra == 0,
    {
        let operand = decrement8(self.fetch_operand());
        self.write(self.current_fetched_word, operand);
        self.set_zero_and_negative(operand);
        0
    }

    /// `DEX`: one less in X.
    fn decrement_x_register(&mut self) -> (extra: u8)
        ensures
            final(self)@ == old(self)@.step_x(-1),
            extra == 0,
    {
        self.x = self._decrement_helper(self.x);
        0
    }

    /// `DEY`: one less in Y.
    fn decrement_y_register(&mut self) -> (extra: u8)
        ensures
            final(self)@ == old(self)@.step_y(-1),
            extra == 0,
    {
        self.y = self._decrement_helper(self.y);
        0
    }

    /// `INC`: one more in memory.
    fn increment_memory(&mut self) -> (extra: u8)
        ensures
            final(self)@ == old(self)@.step_memory(1),
            extra == 0,
    {
        let operand = increment8(self.fetch_operand());
        self.write(self.current_fetched_word, operand);
        self.set_zero_and_negative(operand);
        0
    }

    /// `INX`: one more in X.
    fn increment_x_register(&mut self) -> (extra: u8)
        ensures
            final(self)@ == old(self)@.step_x(1),
            extra == 0,
    {
        self.x = self._increment_helper(self.x);
        0
    }

    /// `INY`: one more in Y.
    fn increment_y_register(&mut self) -> (extra: u8)
        ensures
            final(self)@ == old(self)@.step_y(1),
            extra == 0,
    {
        self.y = self._increment_helper(self.y);
        0
    }

    /// `JMP`: goes on at the operand.
    fn jump(&mut self) -> (extra: u8)
        ensures
            final(self)@ == old(self)@.jmp(),
            extra == 0,
    {
        self.pc = self.current_fetched_word;
        0
    }

    /// `JSR`: pushes the address of its own last byte and goes on at the
    /// operand.
    fn jump_to_subroutine(&mut self) -> (extra: u8)
        ensures
            final(self)@ == old(self)@.jsr(),
            extra == 0,
    {
        self.push_word(decrement16(self.pc));
        self.pc = self.current_fetched_word;
        0
    }

    /// `RTS`: pulls the address that `JSR` pushed and goes on behind it.
    fn return_from_subroutine(&mut self) -> (extra: u8)
        ensures
            final(self)@ == old(self)@.rts(),
            extra == 0,
    {
        let lo = self.pull();
        let hi = self.pull();
        self.pc = sum16(make_word(lo, hi), 1);
        0
    }

    /// `RTI`: pulls P, without its break flag, and then PC.
    fn return_from_interrupt(&mut self) -> (extra: u8)
        ensures
            final(self)@ == old(self)@.rti(),
            extra == 0,
    {
        reveal(with_flag);
        let status = self.pull();
        let lo = self.pull();
        let hi = self.pull();
        self.p = status & !StatusFlags::B.bit();
        self.pc = make_word(lo, hi);
        0
    }

    /// `LDA`: loads A.
    fn load_accumulator(&mut self) -> (extra: u8)
        ensures
            final(self)@ == old(self)@.lda(),
            extra == 1,
    {
        self.a = self.fetch_operand();
        self.set_zero_and_negative(self.a);
        1
    }

    /// `LDX`: loads X.
    fn load_x_register(&mut self) -> (extra: u8)
        ensures
            final(self)@ == old(self)@.ldx(),
            extra == 1,
    {
        self.x = self.fetch_operand();
        self.set_zero_and_negative(self.x);
        1
    }

    /// `LDY`: loads Y.
    fn load_y_register(&mut self) -> (extra: u8)
        ensures
            final(self)@ == old(self)@.ldy(),
            extra == 1,
    {
        self.y = self.fetch_operand();
        self.set_zero_and_negative(self.y);
        1
    }

    /// `NOP`: does nothing. The undocumented forms with an indexed operand
    /// take the cycle for a page crossed.
    fn no_operation(&mut self) -> (extra: u8)
        ensures
            final(self)@ == old(self)@,
            extra == 1,
    {
        1
    }

    /// `PHA`: pushes A.
    fn push_accumulator(&mut self) -> (extra: u8)
        ensures
            final(self)@ == old(self)@.pha(),
            extra == 0,
    {
        self.push(self.a);
        0
    }

    /// `PHP`: pushes P with the break flag and bit 5 set.
    fn push_processor_status(&mut self) -> (extra: u8)
        ensures
            final(self)@ == old(self)@.php(),
            extra == 0,
    {
        reveal(with_flag);
        let status = self.p | StatusFlags::B.bit() | StatusFlags::U.bit();
        self.push(status);
        0
    }

    /// `PLA`: pulls A.
    fn pull_accumulator(&mut self) -> (extra: u8)
        ensures
            final(self)@ == old(self)@.pla(),
            extra == 0,
    {
        self.a = self.pull();
        self.set_zero_and_negative(self.a);
        0
    }

    /// `PLP`: pulls P, without its break flag.
    fn pull_processor_status(&mut self) -> (extra: u8)
        ensures
            final(self)@ == old(self)@.plp(),
            extra == 0,
    {
        reveal(with_flag);
        let status = self.pull();
        self.p = status & !StatusFlags::B.bit();
        0
    }

    /// `STA`: stores A.
    fn store_accumulator(&mut self) -> (extra: u8)
        ensures
            final(self)@ == old(self)@.store(old(self).a),
            extra == 0,
    {
        self.write(self.current_fetched_word, self.a);
        0
    }

    /// `STX`: stores X.
    fn store_x_register(&mut self) -> (extra: u8)
        ensures
            final(self)@ == old(self)@.store(old(self).x),
            extra == 0,
    {
        self.write(self.current_fetched_word, self.x);
        0
    }

    /// `STY`: stores Y.
    fn store_y_register(&mut self) -> (extra: u8)
        ensures
            final(self)@ == old(self)@.store(old(self).y),
            extra == 0,
    {
        self.write(self.current_fetched_word, self.y);
        0
    }

    /// `TAX`: copies A to X.
    fn transfer_accumulator_to_x(&mut self) -> (extra: u8)
        ensures
            final(self)@ == old(self)@.tax(),
            extra == 0,
    {
        self.x = self.a;
        self.set_zero_and_negative(self.x);
        0
    }

    /// `TAY`: copies A to Y.
    fn transfer_accumulator_to_y(&mut self) -> (extra: u8)
        ensures
            final(self)@ == old(self)@.tay(),
            extra == 0,
    {
        self.y = self.a;
        self.set_zero_and_negative(self.y);
        0
    }

    /// `TSX`: copies the stack pointer to X.
    fn transfer_stack_pointer_to_x(&mut self) -> (extra: u8)
        ensures
            final(self)@ == old(self)@.tsx(),
            extra == 0,
    {
        self.x = self.sp;
        self.set_zero_and_negative(self.x);
        0
    }

    /// `TXA`: copies X to A.
    fn transfer_x_to_accumulator(&mut self) -> (extra: u8)
        ensures
            final(self)@ == old(self)@.txa(),
            extra == 0,
    {
        self.a = self.x;
        self.set_zero_and_negative(self.a);
        0
    }

    /// `TXS`: copies X to the stack pointer and, unlike the other transfers, sets no
    /// flag.
    fn transfer_x_to_stack_pointer(&mut self) -> (extra: u8)
        ensures
            final(self)@ == old(self)@.txs(),
            extra == 0,
    {
        self.sp = self.x;
        0
    }

    /// `TYA`: copies Y to A.
    fn transfer_y_to_accumulator(&mut self) -> (extra: u8)
        ensures
            final(self)@ == old(self)@.tya(),
            extra == 0,
    {
        self.a = self.y;
        self.set_zero_and_negative(self.a);
        0
    }

    // ----- undocumented instructions -----

    /// `LAX`: loads A and X at once.
    fn lax(&mut self) -> (extra: u8)
        ensures
            final(self)@ == old(self)@.lax(),
            extra == 1,
    {
        self.a = self.fetch_operand();
        self.x = self.a;
        self.set_zero_and_negative(self.x);
        1
    }

    /// `SAX`: stores A AND X.
    fn sax(&mut self) -> (extra: u8)
        ensures
            final(self)@ == old(self)@.sax(),
            extra == 0,
    {
        self.write(self.current_fetched_word, self.a & self.x);
        0
    }

    /// `DCP`: `DEC`, then `CMP`.
    fn dcp(&mut self) -> (extra: u8)
        ensures
            final(self)@ == old(self)@.step_memory(-1).compare(old(self).a),
            extra == 0,
    {
        self.decrement_memory();
        self._compare_helper(self.a);
        0
    }

    /// `ISC`: `INC`, then `SBC`.
    fn isc(&mut self) -> (extra: u8)
        ensures
            final(self)@ == old(self)@.step_memory(1).sbc(),
            extra == 0,
    {
        self.increment_memory();
        self.subtract_with_carry();
        0
    }

    /// `RLA`: `ROL`, then `AND`.
    fn rla(&mut self) -> (extra: u8)
        ensures
            final(self)@ == old(self)@.rol(old(self).current_opcode.mode).and(),
            extra == 0,
    {
        self.rotate_left(self.current_opcode.mode);
        self.logical_and();
        0
    }

    /// `RRA`: `ROR`, then `ADC`.
    fn rra(&mut self) -> (extra: u8)
        ensures
            final(self)@ == old(self)@.ror(old(self).current_opcode.mode).adc(),
            extra == 0,
    {
        self.rotate_right(self.current_opcode.mode);
        self.add_with_carry();
        0
    }

    /// `SLO`: `ASL`, then `ORA`.
    fn slo(&mut self) -> (extra: u8)
        ensures
            final(self)@ == old(self)@.asl(old(self).current_opcode.mode).ora(),
            extra == 0,
    {
        self.arithmetic_shift_left(self.current_opcode.mode);
        self.logical_inclusive_or();
        0
    }

    /// `SRE`: `LSR`, then `EOR`.
    fn sre(&mut self) -> (extra: u8)
        ensures
            final(self)@ == old(self)@.lsr(old(self).current_opcode.mode).eor(),
            extra == 0,
    {
        self.logical_shift_right(self.current_opcode.mode);
        self.exclusive_or();
        0
    }

    // ----- the clock -----

    /// Carries out an instruction whose operand is fetched, and says with 1
    /// that it takes one more cycle if its operand was in another page,
    /// else 0. The instructions without behaviour do nothing.
    #[verifier::rlimit(50)]
    fn run_instruction(&mut self, instruction: Instruction, mode: AddressingMode) -> (extra: u8)
        requires
            mode == old(self).current_opcode.mode,
        ensures
            final(self)@ == old(self)@.run(instruction),
            extra == if pays_for_page_cross(instruction) { 1u8 } else { 0u8 },
    {
        reveal(Machine::run);
        match instruction {
            Instruction::ADC => self.add_with_carry(),
            Instruction::AND => self.logical_and(),
            Instruction::ASL => self.arithmetic_shift_left(mode),
            Instruction::BCC => self.branch_if_carry_clear(),
            Instruction::BCS => self.branch_if_carry_set(),
            Instruction::BEQ => self.branch_if_equal(),
            Instruction::BIT => self.bit_test(),
            Instruction::BMI => self.branch_if_minus(),
            Instruction::BNE => self.branch_if_not_equal(),
            Instruction::BPL => self.branch_if_positive(),
            Instruction::BRK => self.force_interrupt(),
            Instruction::BVC => self.branch_if_overflow_clear(),
            Instruction::BVS => self.branch_if_overflow_set(),
            Instruction::CLC => self.clear_carry_flag(),
            Instruction::CLD => self.clear_decimal_mode(),
            Instruction::CLI => self.clear_interrupt_disable(),
            Instruction::CLV => self.clear_overflow_flag(),
            Instruction::CMP => self.compare(),
            Instruction::CPX => self.compare_x_register(),
            Instruction::CPY => self.compare_y_register(),
            Instruction::DEC => self.decrement_memory(),
            Instruction::DEX => self.decrement_x_register(),
            Instruction::DEY => self.decrement_y_register(),
            Instruction::EOR => self.exclusive_or(),
            Instruction::INC => self.increment_memory(),
            Instruction::INX => self.increment_x_register(),
            Instruction::INY => self.increment_y_register(),
            Instruction::JMP => self.jump(),
            Instruction::JSR => self.jump_to_subroutine(),
            Instruction::LDA => self.load_accumulator(),
            Instruction::LDX => self.load_x_register(),
            Instruction::LDY => self.load_y_register(),
            Instruction::LSR => self.logical_shift_right(mode),
            Instruction::NOP => self.no_operation(),
            Instruction::ORA => self.logical_inclusive_or(),
            Instruction::PHA => self.push_accumulator(),
            Instruction::PHP => self.push_processor_status(),
            Instruction::PLA => self.pull_accumulator(),
            Instruction::PLP => self.pull_processor_status(),
            Instruction::ROL => self.rotate_left(mode),
            Instruction::ROR => self.rotate_right(mode),
            Instruction::RTI => self.return_from_interrupt(),
            Instruction::RTS => self.return_from_subroutine(),
            Instruction::SBC => self.subtract_with_carry(),
            Instruction::SEC => self.set_carry_flag(),
            Instruction::SED => self.set_decimal_flag(),
            Instruction::SEI => self.set_interrupt_disable(),
            Instruction::STA => self.store_accumulator(),
            Instruction::STX => self.store_x_register(),
            Instruction::STY => self.store_y_register(),
            Instruction::TAX => self.transfer_accumulator_to_x(),
            Instruction::TAY => self.transfer_accumulator_to_y(),
            Instruction::TSX => self.transfer_stack_pointer_to_x(),
            Instruction::TXA => self.transfer_x_to_accumulator(),
            Instruction::TXS => self.transfer_x_to_stack_pointer(),
            Instruction::TYA => self.transfer_y_to_accumulator(),
            Instruction::LAX => self.lax(),
            Instruction::SAX => self.sax(),
            Instruction::DCP => self.dcp(),
            Instruction::ISC => self.isc(),
            Instruction::RLA => self.rla(),
            Instruction::RRA => self.rra(),
            Instruction::SLO => self.slo(),
            Instruction::SRE => self.sre(),
            Instruction::ALR
            | Instruction::ANC
            | Instruction::ARR
            | Instruction::AXS
            | Instruction::UNK => 0,
        }
    }

    /// Fetches the operand of the instruction in progress and carries the
    /// instruction out. The result is the cycle, 1 or 0, that it takes on
    /// top for an operand in another page.
    fn execute(&mut self, opcode: DecodedOpcode) -> (additional_cycles: u8)
        requires
            opcode == old(self).current_opcode,
        ensures
            final(self)@ == old(self)@.executed(),
            additional_cycles == old(self)@.page_cross_penalty(),
    {
        let address_page_cross_cycle = self.fetch(opcode.mode);
        let potential_extra_instruction_cycle = self.run_instruction(
            opcode.instruction,
            opcode.mode,
        );
        if address_page_cross_cycle == 1 && potential_extra_instruction_cycle == 1 {
            1
        } else {
            0
        }
    }

    /// Takes up the instruction at PC: decodes it, counts its base cycles
    /// and sets bit 5 of P. A byte that is no opcode is refused, and
    /// nothing changes.
    pub fn load_instruction(&mut self) -> (result: Result<DecodedOpcode, DecodeError>)
        ensures
            match result {
                Ok(opcode) => opcode_matrix(old(self)@.next_byte()) == Some(opcode)
                    && final(self)@ == old(self)@.loaded(opcode),
                Err(DecodeError::IllegalUnimplementedOpcode { opcode }) => opcode_matrix(
                    old(self)@.next_byte(),
                ) is None && opcode == old(self)@.next_byte() && final(self)@ == old(self)@,
            },
    {
        let instruction = self.bus.read(self.pc);
        match instruction.decode() {
            Ok(opcode) => {
                self.set_status(StatusFlags::U, true);
                self.current_instruction = instruction;
                self.current_opcode = opcode;
                self.cycles = opcode.cycles;
                Ok(opcode)
            },
            Err(error) => Err(error),
        }
    }

    /// Whether `clock` and `debug_clock` can be called: the count of cycles
    /// has room for one more and, if no instruction is in progress, the
    /// byte at PC is an opcode that the processor can carry out.
    pub fn can_clock(&mut self) -> (ready: bool)
        ensures
            ready == old(self)@.can_tick(),
            *final(self) == *old(self),
    {
        if self.total_cycles == u32::MAX {
            return false;
        }
        if self.cycles != 0 {
            return true;
        }
        let instruction = self.bus.read(self.pc);
        match instruction.decode() {
            Ok(opcode) => opcode.instruction.can_execute(),
            Err(_) => false,
        }
    }

    /// Carries out the instruction at PC and counts its cycles.
    fn begin_instruction(&mut self)
        requires
            opcode_matrix(old(self)@.next_byte()) is Some,
        ensures
            final(self)@ == old(self)@.begun(opcode_matrix(old(self)@.next_byte()).unwrap()),
    {
        reveal(Machine::begun);
        let opcode = self.load_instruction().unwrap();
        self.finish_instruction(opcode);
    }

    /// Carries out the instruction that was just loaded.
    fn finish_instruction(&mut self, opcode: DecodedOpcode)
        requires
            opcode == old(self).current_opcode,
        ensures
            final(self)@ == ({
                let stepped = Machine { pc: add16(old(self).pc, 1), ..old(self)@ };
                let done = stepped.executed();
                Machine {
                    cycles: add8(done.cycles, stepped.page_cross_penalty()),
                    ..done.set_flag(StatusFlags::U, true)
                }
            }),
    {
        self.pc = sum16(self.pc, 1);
        let additional_cycles = self.execute(opcode);
        self.cycles = sum8(self.cycles, additional_cycles);
        self.set_status(StatusFlags::U, true);
    }

    /// Counts one cycle off the instruction in progress and one onto the
    /// total.
    fn count_tick(&mut self)
        requires
            old(self).total_cycles < u32::MAX,
        ensures
            final(self)@ == (Machine {
                cycles: add8(old(self).cycles, -1),
                total_cycles: (old(self).total_cycles + 1) as u32,
                ..old(self)@
            }),
    {
        self.cycles = decrement8(self.cycles);
        self.total_cycles = self.total_cycles + 1;
    }

    /// One tick of the clock. A tick that finds no instruction in progress
    /// fetches, decodes and carries out the next one at once; the ticks
    /// after it only wait until the cycles of that instruction are over.
    pub fn clock(&mut self)
        requires
            old(self)@.can_tick(),
        ensures
            final(self)@ == old(self)@.tick(),
    {
        if self.cycles == 0 {
            proof {
                lemma_begun_frame(self@, opcode_matrix(self@.next_byte()).unwrap());
            }
            self.begin_instruction();
        }
        self.count_tick();
    }

    /// The processor as one line of trace: PC, the bytes of the
    /// instruction, the instruction in progress as text, and the registers.
    pub fn trace_line(&mut self) -> (line: String)
        ensures
            line@ == old(self)@.trace_line(),
            *final(self) == *old(self),
    {
        reveal(Machine::trace_line);
        let first = self.bus.read(sum16(self.pc, 1));
        let second = self.bus.read(sum16(self.pc, 2));
        let mut text = String::new();
        push_instruction_text(&mut text, self.current_opcode, first, second);
        let mut line = String::new();
        push_hex_word(&mut line, self.pc);
        push_char(&mut line, ' ');
        push_char(&mut line, ' ');
        push_hex_byte(&mut line, self.current_instruction);
        push_char(&mut line, ' ');
        push_operand_dump(&mut line, self.current_opcode.mode, first, second);
        push_char(&mut line, ' ');
        push_padded(&mut line, text.as_str(), 32);
        self.push_registers(&mut line);
        assert(line@ =~= self@.trace_line());
        line
    }

    /// Appends the registers as they stand in a line of trace.
    fn push_registers(&self, out: &mut String)
        ensures
            final(out)@ == old(out)@ + self@.registers_text(),
    {
        push_char(out, 'A');
        push_char(out, ':');
        push_hex_byte(out, self.a);
        push_char(out, ' ');
        push_char(out, 'X');
        push_char(out, ':');
        push_hex_byte(out, self.x);
        push_char(out, ' ');
        push_char(out, 'Y');
        push_char(out, ':');
        push_hex_byte(out, self.y);
        push_char(out, ' ');
        push_char(out, 'P');
        push_char(out, ':');
        push_hex_byte(out, self.p);
        push_char(out, ' ');
        push_char(out, 'S');
        push_char(out, 'P');
        push_char(out, ':');
        push_hex_byte(out, self.sp);
        push_char(out, ' ');
        push_char(out, 'C');
        push_char(out, 'Y');
        push_char(out, 'C');
        push_char(out, ':');
        push_decimal_number(out, self.total_cycles);
        assert(out@ =~= old(out)@ + self@.registers_text());
    }

    /// One tick of the clock, as `clock`, with a report: the line of trace
    /// of the processor as the tick finds it, which at the start of an
    /// instruction shows that instruction.
    pub fn debug_clock(&mut self) -> (debug: String)
        requires
            old(self)@.can_tick(),
        ensures
            final(self)@ == old(self)@.tick(),
            debug@ == old(self)@.debug_line(),
    {
        let debug = if self.cycles == 0 {
            proof {
                lemma_begun_frame(self@, opcode_matrix(self@.next_byte()).unwrap());
            }
            let opcode = self.load_instruction().unwrap();
            let debug = self.trace_line();
            self.finish_instruction(opcode);
            proof {
                reveal(Machine::begun);
            }
            debug
        } else {
            self.trace_line()
        };
        self.count_tick();
        debug
    }

    /// Runs the clock until the total of cycles is past `last_cycle`, or
    /// until the next tick cannot be made, and gives the trace: the report
    /// of every tick that has moved PC, one per line.
    pub fn run_trace(&mut self, last_cycle: u32) -> (trace: String)
        ensures
            trace@ == old(self)@.traced(0, ticks_through(old(self).total_cycles, last_cycle)),
            final(self)@ == old(self)@.advanced(
                ticks_through(old(self).total_cycles, last_cycle),
            ),
    {
        let mut trace = String::new();
        let mut last_pc: u16 = 0;
        while self.total_cycles <= last_cycle
            invariant
                trace@ + self@.traced(last_pc, ticks_through(self.total_cycles, last_cycle))
                    == old(self)@.traced(0, ticks_through(old(self).total_cycles, last_cycle)),
                self@.advanced(ticks_through(self.total_cycles, last_cycle)) == old(
                    self,
                )@.advanced(ticks_through(old(self).total_cycles, last_cycle)),
            ensures
                self@.traced(last_pc, ticks_through(self.total_cycles, last_cycle))
                    == Seq::<char>::empty(),
                self@.advanced(ticks_through(self.total_cycles, last_cycle)) == self@,
            decreases last_cycle - self.total_cycles + 1,
        {
            if !self.can_clock() {
                break ;
            }
            proof {
                lemma_tick_counts(self@);
            }
            let debug = self.debug_clock();
            if last_pc != self.pc {
                trace.append(debug.as_str());
                push_char(&mut trace, '\n');
                last_pc = self.pc;
            }
        }
        assert(trace@ =~= old(self)@.traced(
            0,
            ticks_through(old(self).total_cycles, last_cycle),
        ));
        trace
    }

    /// Restarts the processor: registers cleared, the stack pointer at
    /// `$FD`, only the break flag set in P, PC from the vector at `$FFFC`,
    /// and eight cycles to wait.
    pub fn reset(&mut self)
        ensures
            final(self)@ == old(self)@.reset(),
    {
        self.current_fetched_word = RESET_VECTOR;
        self.pc = self.read_word(self.current_fetched_word);
        self.a = 0;
        self.x = 0;
        self.y = 0;
        self.sp = 0xFD;
        self.p = StatusFlags::B.bit();
        self.cycles = 8;
    }

    /// An interrupt request. It is ignored while the I flag is set; else
    /// PC and P go on the stack, the break flag clear in the copy of P,
    /// then I is set and PC comes from the vector at `$FFFE`. Seven
    /// cycles.
    ///
    /// The request is served at once. It belongs between two instructions,
    /// when `cycles` is zero: served earlier, it takes the place of what the
    /// instruction in progress still had to wait.
    pub fn irq(&mut self)
        ensures
            final(self)@ == old(self)@.irq(),
    {
        if !self.get_status(StatusFlags::I) {
            self.enter_interrupt(IRQ_VECTOR, false);
            self.current_fetched_word = IRQ_VECTOR;
            self.cycles = 7;
        }
    }

    /// A non-maskable interrupt: as an interrupt request, but it cannot be
    /// disabled, and its vector is at `$FFFA`. It is served at once, too.
    pub fn nmi(&mut self)
        ensures
            final(self)@ == old(self)@.nmi(),
    {
        self.enter_interrupt(NMI_VECTOR, false);
        self.current_fetched_word = NMI_VECTOR;
        self.cycles = 7;
    }
}

} // verus!
