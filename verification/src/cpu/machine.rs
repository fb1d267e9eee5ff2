//! What the processor does, as mathematics: the state of the machine as a
//! plain value and every fetch, instruction and interrupt as a function
//! from state to state. The executable processor is proved to follow these
//! functions step by step.
//!
//! The largest of them are opaque, so that a proof which only passes them
//! on is not burdened with their bodies: [`Machine::run`],
//! [`Machine::begun`] and [`Machine::trace_line`] here, the reads and
//! writes of the bus and of the flags elsewhere. A proof that needs a body
//! reveals it.

use vstd::prelude::*;
use crate::bus::bus::{BusState, bus_read, bus_write};
use crate::cpu::opcode::{AddressingMode, DecodedOpcode, Instruction, opcode_matrix};
use crate::cpu::status::{StatusFlags, flag, with_flag, with_zn, pushed_status};
use crate::cpu::listing::{instruction_text, operand_dump};
use crate::cpu::word::{add8, add16, word, low, high, sign_extended};
use crate::text::{decimal_number, hex_byte, hex_word, padded};

verus! {

/// Where the processor finds the address of its interrupt routine when the
/// non-maskable interrupt line falls.
pub const NMI_VECTOR: u16 = 0xFFFA;

/// Where the processor finds the address at which it starts after a reset.
pub const RESET_VECTOR: u16 = 0xFFFC;

/// Where the processor finds the address of its interrupt routine for an
/// interrupt request and for `BRK`.
pub const IRQ_VECTOR: u16 = 0xFFFE;

/// The page that holds the stack.
pub const STACK_PAGE: u8 = 0x01;

/// The state of the whole machine.
pub struct Machine {
    /// Accumulator.
    pub a: u8,
    /// Index register X.
    pub x: u8,
    /// Index register Y.
    pub y: u8,
    /// Program counter.
    pub pc: u16,
    /// Stack pointer: the low byte of the next free slot in the stack page.
    pub sp: u8,
    /// Status register.
    pub p: u8,
    /// Everything on the bus.
    pub bus: BusState,
    /// Ticks that the instruction in progress still takes.
    pub cycles: u8,
    /// The opcode byte of the instruction in progress.
    pub current_instruction: u8,
    /// Ticks since power-on.
    pub total_cycles: u32,
    /// The instruction in progress, decoded.
    pub current_opcode: DecodedOpcode,
    /// The operand of the instruction in progress: its address or, where
    /// the addressing mode has none, the operand itself.
    pub current_fetched_word: u16,
}

/// Whether an addressing mode leaves the operand itself, not its address,
/// in the fetched word.
pub open spec fn holds_value(mode: AddressingMode) -> bool {
    mode == AddressingMode::Immediate || mode == AddressingMode::Accumulator || mode
        == AddressingMode::Relative
}

/// Whether an instruction takes one more cycle when the indexing of its
/// operand crosses a page: those that only read the operand do.
pub open spec fn pays_for_page_cross(instruction: Instruction) -> bool {
    match instruction {
        Instruction::ADC
        | Instruction::AND
        | Instruction::CMP
        | Instruction::CPX
        | Instruction::CPY
        | Instruction::EOR
        | Instruction::LDA
        | Instruction::LDX
        | Instruction::LDY
        | Instruction::NOP
        | Instruction::ORA
        | Instruction::SBC
        | Instruction::LAX => true,
        _ => false,
    }
}

/// The number of ticks from a total of cycles until the total is past
/// `last_cycle`.
pub open spec fn ticks_through(total_cycles: u32, last_cycle: u32) -> nat {
    if total_cycles <= last_cycle {
        (last_cycle - total_cycles + 1) as nat
    } else {
        0
    }
}

/// The flag that a branch tests, and the value of it on which it branches.
pub open spec fn branch_condition(instruction: Instruction) -> Option<(StatusFlags, bool)> {
    match instruction {
        Instruction::BCC => Some((StatusFlags::C, false)),
        Instruction::BCS => Some((StatusFlags::C, true)),
        Instruction::BNE => Some((StatusFlags::Z, false)),
        Instruction::BEQ => Some((StatusFlags::Z, true)),
        Instruction::BPL => Some((StatusFlags::N, false)),
        Instruction::BMI => Some((StatusFlags::N, true)),
        Instruction::BVC => Some((StatusFlags::V, false)),
        Instruction::BVS => Some((StatusFlags::V, true)),
        _ => None,
    }
}

impl Machine {
    // ----- memory, flags and the stack -----

    pub open spec fn read(self, address: u16) -> u8 {
        bus_read(self.bus, address)
    }

    /// The word at `address` and the address after it, low byte first.
    pub open spec fn read_word(self, address: u16) -> u16 {
        word(self.read(address), self.read(add16(address, 1)))
    }

    pub open spec fn write(self, address: u16, data: u8) -> Machine {
        Machine { bus: bus_write(self.bus, address, data), ..self }
    }

    pub open spec fn flag(self, which: StatusFlags) -> bool {
        flag(self.p, which)
    }

    pub open spec fn set_flag(self, which: StatusFlags, on: bool) -> Machine {
        Machine { p: with_flag(self.p, which, on), ..self }
    }

    pub open spec fn set_zn(self, result: u8) -> Machine {
        Machine { p: with_zn(self.p, result), ..self }
    }

    /// The carry flag as a number.
    pub open spec fn carry(self) -> int {
        if self.flag(StatusFlags::C) {
            1
        } else {
            0
        }
    }

    /// Pushes a byte: it goes to the slot that SP names, and SP moves down.
    pub open spec fn push(self, data: u8) -> Machine {
        Machine { sp: add8(self.sp, -1), ..self.write(word(self.sp, STACK_PAGE), data) }
    }

    /// Pushes a word, high byte first.
    pub open spec fn push_word(self, data: u16) -> Machine {
        self.push(high(data)).push(low(data))
    }

    /// Moves SP up to the byte that was pushed last, which `top` then
    /// reads.
    pub open spec fn pull(self) -> Machine {
        Machine { sp: add8(self.sp, 1), ..self }
    }

    /// The byte in the slot that SP names.
    pub open spec fn top(self) -> u8 {
        self.read(word(self.sp, STACK_PAGE))
    }

    // ----- addressing modes -----

    /// The address that the two bytes at PC hold.
    pub open spec fn absolute_operand(self) -> u16 {
        self.read_word(self.pc)
    }

    /// The address stored in the first page at `pointer` and the byte after
    /// it, which is byte 0 again after byte 255.
    pub open spec fn zero_page_word(self, pointer: u8) -> u16 {
        word(self.read(word(pointer, 0)), self.read(word(add8(pointer, 1), 0)))
    }

    /// The address stored at `pointer`. The high byte comes from the
    /// address after `pointer` within the same page: behind `$xxFF` it is
    /// read from `$xx00`.
    pub open spec fn indirect_word(self, pointer: u16) -> u16 {
        word(self.read(pointer), self.read(word(add8(low(pointer), 1), high(pointer))))
    }

    /// The fetched word that an addressing mode yields, with PC at the
    /// first byte behind the opcode.
    pub open spec fn operand_word(self, mode: AddressingMode) -> u16 {
        match mode {
            AddressingMode::Implied => 0,
            AddressingMode::Accumulator => word(self.a, 0),
            AddressingMode::Immediate => word(self.read(self.pc), 0),
            AddressingMode::ZeroPage => word(self.read(self.pc), 0),
            AddressingMode::IndexedZeroPageX => word(add8(self.read(self.pc), self.x as int), 0),
            AddressingMode::IndexedZeroPageY => word(add8(self.read(self.pc), self.y as int), 0),
            AddressingMode::Relative => sign_extended(self.read(self.pc)),
            AddressingMode::Absolute => self.absolute_operand(),
            AddressingMode::IndexedAbsoluteX => add16(self.absolute_operand(), self.x as int),
            AddressingMode::IndexedAbsoluteY => add16(self.absolute_operand(), self.y as int),
            AddressingMode::Indirect => self.indirect_word(self.absolute_operand()),
            AddressingMode::IndexedIndirect => self.zero_page_word(
                add8(self.read(self.pc), self.x as int),
            ),
            AddressingMode::IndirectIndexed => add16(
                self.zero_page_word(self.read(self.pc)),
                self.y as int,
            ),
        }
    }

    /// The address that an indexed mode starts from, before the index
    /// register is added.
    pub open spec fn index_base(self, mode: AddressingMode) -> u16 {
        if mode == AddressingMode::IndirectIndexed {
            self.zero_page_word(self.read(self.pc))
        } else {
            self.absolute_operand()
        }
    }

    /// Whether adding the index register carried into the high byte, so
    /// that the operand lies in another page than the base address.
    pub open spec fn crosses_page(self, mode: AddressingMode) -> bool {
        mode.is_indexed() && high(self.operand_word(mode)) != high(self.index_base(mode))
    }

    /// The machine after the operand fetch of an addressing mode: the word
    /// is fetched and PC is behind the operand bytes.
    pub open spec fn fetched(self, mode: AddressingMode) -> Machine {
        Machine {
            current_fetched_word: self.operand_word(mode),
            pc: add16(self.pc, mode.operand_bytes() as int),
            ..self
        }
    }

    /// The operand of the instruction in progress: the fetched word itself
    /// where the mode holds a value, else the byte at that address.
    pub open spec fn operand(self) -> u8 {
        if holds_value(self.current_opcode.mode) {
            low(self.current_fetched_word)
        } else {
            self.read(self.current_fetched_word)
        }
    }

    /// The byte that a shift or a rotation works on.
    pub open spec fn shift_operand(self, mode: AddressingMode) -> u8 {
        if mode == AddressingMode::Accumulator {
            self.a
        } else {
            self.operand()
        }
    }

    /// Puts the result of a shift or a rotation where its operand was.
    pub open spec fn store_shifted(self, mode: AddressingMode, result: u8) -> Machine {
        if mode == AddressingMode::Accumulator {
            Machine { a: result, ..self }
        } else {
            self.write(self.current_fetched_word, result)
        }
    }

    // ----- instructions -----

    /// `ADC`: A + M + C. C is the carry out of bit 7; V says that two
    /// operands of one sign gave a result of the other.
    pub open spec fn adc(self) -> Machine {
        let operand = self.operand();
        let sum = self.a as int + operand as int + self.carry();
        let result = (sum % 256) as u8;
        let overflow = (!(self.a ^ operand) & (self.a ^ result)) & 0x80 != 0;
        Machine {
            a: result,
            ..self.set_flag(StatusFlags::C, sum > 0xFF).set_flag(
                StatusFlags::Z,
                result == 0,
            ).set_flag(StatusFlags::V, overflow).set_flag(StatusFlags::N, result >= 0x80)
        }
    }

    /// `SBC`: A - M - (1 - C). C says that there was no borrow; V says
    /// that operands of different signs gave a result with the sign of M.
    pub open spec fn sbc(self) -> Machine {
        let operand = self.operand();
        let difference = self.a as int - operand as int - (1 - self.carry());
        let result = (difference % 256) as u8;
        let overflow = (self.a ^ operand) & 0x80 != 0 && (self.a ^ result) & 0x80 != 0;
        Machine {
            a: result,
            ..self.set_flag(StatusFlags::C, difference >= 0).set_flag(
                StatusFlags::Z,
                result == 0,
            ).set_flag(StatusFlags::V, overflow).set_flag(StatusFlags::N, result >= 0x80)
        }
    }

    pub open spec fn and(self) -> Machine {
        let result = self.a & self.operand();
        Machine { a: result, ..self.set_zn(result) }
    }

    pub open spec fn ora(self) -> Machine {
        let result = self.a | self.operand();
        Machine { a: result, ..self.set_zn(result) }
    }

    pub open spec fn eor(self) -> Machine {
        let result = self.a ^ self.operand();
        Machine { a: result, ..self.set_zn(result) }
    }

    /// `ASL`: times two; bit 7 goes to C.
    pub open spec fn asl(self, mode: AddressingMode) -> Machine {
        let operand = self.shift_operand(mode);
        let result = ((operand * 2) % 256) as u8;
        self.set_flag(StatusFlags::C, operand >= 0x80).set_zn(result).store_shifted(mode, result)
    }

    /// `LSR`: halved; bit 0 goes to C.
    pub open spec fn lsr(self, mode: AddressingMode) -> Machine {
        let operand = self.shift_operand(mode);
        let result = (operand / 2) as u8;
        self.set_flag(StatusFlags::C, operand % 2 == 1).set_zn(result).store_shifted(mode, result)
    }

    /// `ROL`: times two, with C coming in as bit 0; bit 7 goes to C.
    pub open spec fn rol(self, mode: AddressingMode) -> Machine {
        let operand = self.shift_operand(mode);
        let result = ((operand * 2 + self.carry()) % 256) as u8;
        self.set_flag(StatusFlags::C, operand >= 0x80).set_zn(result).store_shifted(mode, result)
    }

    /// `ROR`: halved, with C coming in as bit 7; bit 0 goes to C.
    pub open spec fn ror(self, mode: AddressingMode) -> Machine {
        let operand = self.shift_operand(mode);
        let result = (operand / 2 + 128 * self.carry()) as u8;
        self.set_flag(StatusFlags::C, operand % 2 == 1).set_zn(result).store_shifted(mode, result)
    }

    /// `BIT`: Z from A AND M; N and V are bits 7 and 6 of M.
    pub open spec fn bit(self) -> Machine {
        let operand = self.operand();
        self.set_flag(StatusFlags::Z, self.a & operand == 0).set_flag(
            StatusFlags::N,
            operand >= 0x80,
        ).set_flag(StatusFlags::V, operand & 0x40 != 0)
    }

    /// `CMP`, `CPX`, `CPY`: the flags of `register - M`, which is not kept.
    pub open spec fn compare(self, register: u8) -> Machine {
        let operand = self.operand();
        self.set_flag(StatusFlags::C, register >= operand).set_flag(
            StatusFlags::Z,
            register == operand,
        ).set_flag(StatusFlags::N, add8(register, -(operand as int)) >= 0x80)
    }

    /// Where a taken branch goes: the fetched distance from PC.
    pub open spec fn branch_target(self) -> u16 {
        add16(self.pc, self.current_fetched_word as int)
    }

    /// A branch that is taken: one more cycle, and another if the target is
    /// in another page than the instruction behind the branch.
    pub open spec fn branch_taken(self) -> Machine {
        let target = self.branch_target();
        let penalty: int = if high(target) != high(self.pc) {
            2
        } else {
            1
        };
        Machine { pc: target, cycles: add8(self.cycles, penalty), ..self }
    }

    /// A branch on `which` being `wanted`.
    pub open spec fn branch(self, which: StatusFlags, wanted: bool) -> Machine {
        if self.flag(which) == wanted {
            self.branch_taken()
        } else {
            self
        }
    }

    /// The machine on its way into an interrupt routine: PC and a copy of
    /// P are on the stack, interrupts are disabled and PC comes from the
    /// vector.
    pub open spec fn interrupted(self, vector: u16, from_instruction: bool) -> Machine {
        let stacked = self.push_word(self.pc).push(pushed_status(self.p, from_instruction));
        Machine { pc: stacked.read_word(vector), ..stacked.set_flag(StatusFlags::I, true) }
    }

    /// `BRK`: an interrupt from the program, which skips the byte behind
    /// the opcode.
    pub open spec fn brk(self) -> Machine {
        Machine { pc: add16(self.pc, 1), ..self }.interrupted(IRQ_VECTOR, true)
    }

    /// `DEC`, `INC` and their like: the operand in memory moves by `delta`.
    pub open spec fn step_memory(self, delta: int) -> Machine {
        let result = add8(self.operand(), delta);
        self.write(self.current_fetched_word, result).set_zn(result)
    }

    pub open spec fn step_x(self, delta: int) -> Machine {
        let result = add8(self.x, delta);
        Machine { x: result, ..self.set_zn(result) }
    }

    pub open spec fn step_y(self, delta: int) -> Machine {
        let result = add8(self.y, delta);
        Machine { y: result, ..self.set_zn(result) }
    }

    pub open spec fn jmp(self) -> Machine {
        Machine { pc: self.current_fetched_word, ..self }
    }

    /// `JSR`: the address of its own last byte goes on the stack.
    pub open spec fn jsr(self) -> Machine {
        Machine { pc: self.current_fetched_word, ..self.push_word(add16(self.pc, -1)) }
    }

    /// `RTS`: back to the byte behind the address on the stack.
    pub open spec fn rts(self) -> Machine {
        let low_pulled = self.pull();
        let high_pulled = low_pulled.pull();
        Machine { pc: add16(word(low_pulled.top(), high_pulled.top()), 1), ..high_pulled }
    }

    /// `RTI`: P and PC come back from the stack; the break flag is dropped.
    pub open spec fn rti(self) -> Machine {
        let status_pulled = self.pull();
        let low_pulled = status_pulled.pull();
        let high_pulled = low_pulled.pull();
        Machine {
            p: with_flag(status_pulled.top(), StatusFlags::B, false),
            pc: word(low_pulled.top(), high_pulled.top()),
            ..high_pulled
        }
    }

    pub open spec fn lda(self) -> Machine {
        let operand = self.operand();
        Machine { a: operand, ..self.set_zn(operand) }
    }

    pub open spec fn ldx(self) -> Machine {
        let operand = self.operand();
        Machine { x: operand, ..self.set_zn(operand) }
    }

    pub open spec fn ldy(self) -> Machine {
        let operand = self.operand();
        Machine { y: operand, ..self.set_zn(operand) }
    }

    /// A store: the register goes to the operand's address.
    pub open spec fn store(self, register: u8) -> Machine {
        self.write(self.current_fetched_word, register)
    }

    pub open spec fn pha(self) -> Machine {
        self.push(self.a)
    }

    /// `PHP`: the copy of P on the stack has the break flag set.
    pub open spec fn php(self) -> Machine {
        self.push(pushed_status(self.p, true))
    }

    pub open spec fn pla(self) -> Machine {
        let pulled = self.pull();
        Machine { a: pulled.top(), ..pulled.set_zn(pulled.top()) }
    }

    /// `PLP`: P comes back from the stack; the break flag is dropped.
    pub open spec fn plp(self) -> Machine {
        let pulled = self.pull();
        Machine { p: with_flag(pulled.top(), StatusFlags::B, false), ..pulled }
    }

    pub open spec fn tax(self) -> Machine {
        Machine { x: self.a, ..self.set_zn(self.a) }
    }

    pub open spec fn tay(self) -> Machine {
        Machine { y: self.a, ..self.set_zn(self.a) }
    }

    pub open spec fn tsx(self) -> Machine {
        Machine { x: self.sp, ..self.set_zn(self.sp) }
    }

    pub open spec fn txa(self) -> Machine {
        Machine { a: self.x, ..self.set_zn(self.x) }
    }

    pub open spec fn tya(self) -> Machine {
        Machine { a: self.y, ..self.set_zn(self.y) }
    }

    /// `TXS`: the only transfer that leaves the flags alone.
    pub open spec fn txs(self) -> Machine {
        Machine { sp: self.x, ..self }
    }

    /// `LAX`: `LDA` and `TAX` in one.
    pub open spec fn lax(self) -> Machine {
        let operand = self.operand();
        Machine { a: operand, x: operand, ..self.set_zn(operand) }
    }

    /// `SAX`: stores A AND X.
    pub open spec fn sax(self) -> Machine {
        self.store(self.a & self.x)
    }

    /// What an instruction does once its operand is fetched. The
    /// instructions without behaviour leave the machine as it is.
    #[verifier::opaque]
    pub open spec fn run(self, instruction: Instruction) -> Machine {
        let mode = self.current_opcode.mode;
        match instruction {
            Instruction::ADC => self.adc(),
            Instruction::AND => self.and(),
            Instruction::ASL => self.asl(mode),
            Instruction::BCC => self.branch(StatusFlags::C, false),
            Instruction::BCS => self.branch(StatusFlags::C, true),
            Instruction::BEQ => self.branch(StatusFlags::Z, true),
            Instruction::BIT => self.bit(),
            Instruction::BMI => self.branch(StatusFlags::N, true),
            Instruction::BNE => self.branch(StatusFlags::Z, false),
            Instruction::BPL => self.branch(StatusFlags::N, false),
            Instruction::BRK => self.brk(),
            Instruction::BVC => self.branch(StatusFlags::V, false),
            Instruction::BVS => self.branch(StatusFlags::V, true),
            Instruction::CLC => self.set_flag(StatusFlags::C, false),
            Instruction::CLD => self.set_flag(StatusFlags::D, false),
            Instruction::CLI => self.set_flag(StatusFlags::I, false),
            Instruction::CLV => self.set_flag(StatusFlags::V, false),
            Instruction::CMP => self.compare(self.a),
            Instruction::CPX => self.compare(self.x),
            Instruction::CPY => self.compare(self.y),
            Instruction::DEC => self.step_memory(-1),
            Instruction::DEX => self.step_x(-1),
            Instruction::DEY => self.step_y(-1),
            Instruction::EOR => self.eor(),
            Instruction::INC => self.step_memory(1),
            Instruction::INX => self.step_x(1),
            Instruction::INY => self.step_y(1),
            Instruction::JMP => self.jmp(),
            Instruction::JSR => self.jsr(),
            Instruction::LDA => self.lda(),
            Instruction::LDX => self.ldx(),
            Instruction::LDY => self.ldy(),
            Instruction::LSR => self.lsr(mode),
            Instruction::NOP => self,
            Instruction::ORA => self.ora(),
            Instruction::PHA => self.pha(),
            Instruction::PHP => self.php(),
            Instruction::PLA => self.pla(),
            Instruction::PLP => self.plp(),
            Instruction::ROL => self.rol(mode),
            Instruction::ROR => self.ror(mode),
            Instruction::RTI => self.rti(),
            Instruction::RTS => self.rts(),
            Instruction::SBC => self.sbc(),
            Instruction::SEC => self.set_flag(StatusFlags::C, true),
            Instruction::SED => self.set_flag(StatusFlags::D, true),
            Instruction::SEI => self.set_flag(StatusFlags::I, true),
            Instruction::STA => self.store(self.a),
            Instruction::STX => self.store(self.x),
            Instruction::STY => self.store(self.y),
            Instruction::TAX => self.tax(),
            Instruction::TAY => self.tay(),
            Instruction::TSX => self.tsx(),
            Instruction::TXA => self.txa(),
            Instruction::TXS => self.txs(),
            Instruction::TYA => self.tya(),
            Instruction::LAX => self.lax(),
            Instruction::SAX => self.sax(),
            Instruction::DCP => self.step_memory(-1).compare(self.a),
            Instruction::ISC => self.step_memory(1).sbc(),
            Instruction::RLA => self.rol(mode).and(),
            Instruction::RRA => self.ror(mode).adc(),
            Instruction::SLO => self.asl(mode).ora(),
            Instruction::SRE => self.lsr(mode).eor(),
            _ => self,
        }
    }

    // ----- the clock -----

    /// The opcode byte at PC.
    pub open spec fn next_byte(self) -> u8 {
        self.read(self.pc)
    }

    /// The machine with the instruction at PC taken up: decoded, its base
    /// cycles counted, and bit 5 of P set. PC still points at the opcode.
    pub open spec fn loaded(self, opcode: DecodedOpcode) -> Machine {
        Machine {
            current_instruction: self.next_byte(),
            current_opcode: opcode,
            cycles: opcode.cycles,
            ..self.set_flag(StatusFlags::U, true)
        }
    }

    /// The cycle, if any, that the instruction in progress pays for an
    /// operand in another page: 1 or 0. The machine is the one before the
    /// operand fetch.
    pub open spec fn page_cross_penalty(self) -> int {
        if self.crosses_page(self.current_opcode.mode) && pays_for_page_cross(
            self.current_opcode.instruction,
        ) {
            1
        } else {
            0
        }
    }

    /// The machine after the instruction in progress has fetched its
    /// operand and done its work. PC points behind the opcode at first.
    pub open spec fn executed(self) -> Machine {
        self.fetched(self.current_opcode.mode).run(self.current_opcode.instruction)
    }

    /// A whole instruction, from a machine that has none in progress: load,
    /// step over the opcode, fetch, run, and count the cycles, of which
    /// none is used up yet.
    #[verifier::opaque]
    pub open spec fn begun(self, opcode: DecodedOpcode) -> Machine {
        let stepped = Machine { pc: add16(self.pc, 1), ..self.loaded(opcode) };
        let done = stepped.executed();
        Machine {
            cycles: add8(done.cycles, stepped.page_cross_penalty()),
            ..done.set_flag(StatusFlags::U, true)
        }
    }

    /// Whether the next tick can be made: there is room in the cycle count
    /// and, where the tick begins an instruction, the byte at PC is an
    /// opcode that the processor can carry out.
    pub open spec fn can_tick(self) -> bool {
        &&& self.total_cycles < u32::MAX
        &&& self.cycles == 0 ==> (opcode_matrix(self.next_byte()) matches Some(opcode)
            && opcode.instruction.is_executable())
    }

    /// The machine as the next tick finds it: with the next instruction
    /// carried out if none was in progress.
    pub open spec fn at_tick(self) -> Machine {
        if self.cycles == 0 {
            self.begun(opcode_matrix(self.next_byte()).unwrap())
        } else {
            self
        }
    }

    /// One tick of the clock. A tick that finds no instruction in progress
    /// carries out the next one at once; every tick then counts one cycle
    /// off the instruction and one onto the total.
    pub open spec fn tick(self) -> Machine {
        let now = self.at_tick();
        Machine {
            cycles: add8(now.cycles, -1),
            total_cycles: (now.total_cycles + 1) as u32,
            ..now
        }
    }

    /// The machine after `count` ticks, or after as many as can be made
    /// if that is fewer.
    pub open spec fn advanced(self, count: nat) -> Machine
        decreases count,
    {
        if count == 0 || !self.can_tick() {
            self
        } else {
            self.tick().advanced((count - 1) as nat)
        }
    }

    // ----- the trace -----

    /// The registers as they stand in a line of trace, every one but the
    /// cycle count as two hexadecimal digits:
    /// `A:00 X:00 Y:00 P:24 SP:FD CYC:7`.
    pub open spec fn registers_text(self) -> Seq<char> {
        seq!['A', ':'] + hex_byte(self.a) + seq![' ', 'X', ':'] + hex_byte(self.x) + seq![
            ' ',
            'Y',
            ':',
        ] + hex_byte(self.y) + seq![' ', 'P', ':'] + hex_byte(self.p) + seq![' ', 'S', 'P', ':']
            + hex_byte(self.sp) + seq![' ', 'C', 'Y', 'C', ':'] + decimal_number(
            self.total_cycles as nat,
        )
    }

    /// The machine as one line of trace, in the columns of the well-known
    /// test logs: PC in four hexadecimal digits; the opcode byte and the two
    /// bytes behind PC as far as they are operand bytes; the instruction in
    /// progress as text, in a column of thirty-two characters; the
    /// registers.
    ///
    /// `C000  4C F5 C5  JMP $C5F5                       A:00 X:00 Y:00 P:24 SP:FD CYC:7`
    #[verifier::opaque]
    pub open spec fn trace_line(self) -> Seq<char> {
        let first = self.read(add16(self.pc, 1));
        let second = self.read(add16(self.pc, 2));
        hex_word(self.pc) + seq![' ', ' '] + hex_byte(self.current_instruction) + seq![' ']
            + operand_dump(self.current_opcode.mode, first, second) + seq![' '] + padded(
            instruction_text(self.current_opcode, first, second),
            32,
        ) + self.registers_text()
    }

    /// The line that a traced tick reports: the machine as the tick finds
    /// it, with the instruction at PC taken up if none was in progress.
    pub open spec fn debug_line(self) -> Seq<char> {
        if self.cycles == 0 {
            self.loaded(opcode_matrix(self.next_byte()).unwrap()).trace_line()
        } else {
            self.trace_line()
        }
    }

    /// The trace of `count` ticks, or of as many as can be made if that is
    /// fewer: the report of every tick that has moved PC away from
    /// `last_pc`, where it was when the last line was written, each with a
    /// line feed behind it.
    pub open spec fn traced(self, last_pc: u16, count: nat) -> Seq<char>
        decreases count,
    {
        if count == 0 || !self.can_tick() {
            Seq::empty()
        } else if self.tick().pc != last_pc {
            self.debug_line() + seq!['\n'] + self.tick().traced(
                self.tick().pc,
                (count - 1) as nat,
            )
        } else {
            self.tick().traced(last_pc, (count - 1) as nat)
        }
    }

    /// The machine after a reset: the registers are cleared, the stack
    /// pointer is at `$FD`, P holds the break flag and nothing else, PC
    /// comes from the reset vector, and eight cycles pass before the first
    /// instruction.
    pub open spec fn reset(self) -> Machine {
        Machine {
            a: 0,
            x: 0,
            y: 0,
            sp: 0xFD,
            p: StatusFlags::B.mask(),
            pc: self.read_word(RESET_VECTOR),
            current_fetched_word: RESET_VECTOR,
            cycles: 8,
            ..self
        }
    }

    /// The machine after an interrupt from outside through `vector`.
    pub open spec fn interrupt(self, vector: u16) -> Machine {
        Machine { current_fetched_word: vector, cycles: 7, ..self.interrupted(vector, false) }
    }

    /// The machine after an interrupt request, which is ignored while
    /// interrupts are disabled.
    pub open spec fn irq(self) -> Machine {
        if self.flag(StatusFlags::I) {
            self
        } else {
            self.interrupt(IRQ_VECTOR)
        }
    }

    /// The machine after a non-maskable interrupt.
    pub open spec fn nmi(self) -> Machine {
        self.interrupt(NMI_VECTOR)
    }
}

} // verus!
