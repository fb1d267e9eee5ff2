//! Laws of the machine: what holds of every state, stated over the model
//! and proved once.

use vstd::prelude::*;
use crate::bus::bus::{BusState, bus_write, lemma_write_keeps_cartridge};
use crate::cpu::machine::{Machine, branch_condition};
use crate::cpu::opcode::{AddressingMode, DecodedOpcode, Instruction, opcode_matrix};
use crate::cpu::status::{StatusFlags, flag, with_flag, lemma_one_bit, lemma_overflow_bits,
    lemma_sign_bit, lemma_with_flag};
use crate::cpu::word::{add8, add16, word, low, high, signed};

verus! {

/// An instruction works on the registers, the flags, the bus and its own
/// cycle count. It never touches the total of cycles, nor the record of
/// which instruction is in progress and what its operand is.
#[verifier::rlimit(50)]
pub proof fn lemma_run_frame(m: Machine, instruction: Instruction)
    ensures
        m.run(instruction).total_cycles == m.total_cycles,
        m.run(instruction).current_instruction == m.current_instruction,
        m.run(instruction).current_opcode == m.current_opcode,
        m.run(instruction).current_fetched_word == m.current_fetched_word,
{
    reveal(Machine::run);
}

/// A whole instruction leaves the total of cycles alone and records what
/// was decoded.
pub proof fn lemma_begun_frame(m: Machine, opcode: DecodedOpcode)
    ensures
        m.begun(opcode).total_cycles == m.total_cycles,
        m.begun(opcode).current_instruction == m.next_byte(),
        m.begun(opcode).current_opcode == opcode,
{
    reveal(Machine::begun);
    let stepped = Machine { pc: add16(m.pc, 1), ..m.loaded(opcode) };
    lemma_run_frame(stepped.fetched(opcode.mode), opcode.instruction);
}

/// The registers are bytes and the program counter is a word, in every
/// state.
pub proof fn lemma_register_ranges(m: Machine)
    ensures
        0 <= m.sp <= 0xFF,
        0 <= m.pc <= 0xFFFF,
        0 <= m.a <= 0xFF,
        0 <= m.x <= 0xFF,
        0 <= m.y <= 0xFF,
{
}

/// Whether an instruction moves PC elsewhere than behind itself, whatever
/// the flags are.
pub open spec fn is_jump(instruction: Instruction) -> bool {
    instruction == Instruction::JMP || instruction == Instruction::JSR || instruction
        == Instruction::RTS || instruction == Instruction::RTI || instruction == Instruction::BRK
}

/// Whether an instruction is a branch that the flags of the machine let
/// happen.
pub open spec fn takes_branch(m: Machine, instruction: Instruction) -> bool {
    branch_condition(instruction) matches Some((which, wanted)) && m.flag(which) == wanted
}

/// The cycles that a branch costs on top of its base: none if it is not
/// taken, one if it is, two if it is and the target lies in another page
/// than the instruction behind the branch.
pub open spec fn branch_penalty(m: Machine, instruction: Instruction) -> int {
    if !takes_branch(m, instruction) {
        0
    } else if high(m.branch_target()) != high(m.pc) {
        2
    } else {
        1
    }
}

/// Only a branch that is taken changes the cycle count of its
/// instruction, by its penalty.
#[verifier::rlimit(50)]
pub proof fn lemma_run_cycles(m: Machine, instruction: Instruction)
    ensures
        !takes_branch(m, instruction) ==> m.run(instruction).cycles == m.cycles,
        takes_branch(m, instruction) ==> m.run(instruction).cycles == add8(
            m.cycles,
            branch_penalty(m, instruction),
        ),
{
    reveal(Machine::run);
}

/// Only a jump and a branch that is taken move PC. `JMP` and `JSR` move it
/// to their operand, a taken branch to its target.
#[verifier::rlimit(50)]
pub proof fn lemma_run_pc(m: Machine, instruction: Instruction)
    ensures
        !is_jump(instruction) && !takes_branch(m, instruction) ==> m.run(instruction).pc == m.pc,
        instruction == Instruction::JMP || instruction == Instruction::JSR ==> m.run(
            instruction,
        ).pc == m.current_fetched_word,
        takes_branch(m, instruction) ==> m.run(instruction).pc == m.branch_target(),
{
    reveal(Machine::run);
}

/// Fetching an operand moves PC over the bytes of the operand.
pub proof fn lemma_fetch_advances(m: Machine, mode: AddressingMode)
    ensures
        m.fetched(mode).pc == add16(m.pc, mode.operand_bytes() as int),
        mode.operand_bytes() == 0 <==> mode == AddressingMode::Implied || mode
            == AddressingMode::Accumulator,
        mode.operand_bytes() == 2 <==> mode == AddressingMode::Absolute || mode
            == AddressingMode::IndexedAbsoluteX || mode == AddressingMode::IndexedAbsoluteY || mode
            == AddressingMode::Indirect,
        0 <= mode.operand_bytes() <= 2,
{
}

/// Where an instruction leaves PC. One that is neither a jump nor a taken
/// branch leaves it behind its own bytes: the opcode and the operand of
/// its addressing mode. `JMP` and `JSR` leave it at their operand, a taken
/// branch at its target.
pub proof fn lemma_pc_advance(m: Machine, opcode: DecodedOpcode)
    ensures
        ({
            let at_operand = (Machine { pc: add16(m.pc, 1), ..m.loaded(opcode) }).fetched(
                opcode.mode,
            );
            &&& at_operand.pc == add16(m.pc, 1 + opcode.mode.operand_bytes() as int)
            &&& !is_jump(opcode.instruction) && !takes_branch(at_operand, opcode.instruction)
                ==> m.begun(opcode).pc == add16(m.pc, 1 + opcode.mode.operand_bytes() as int)
            &&& opcode.instruction == Instruction::JMP || opcode.instruction == Instruction::JSR
                ==> m.begun(opcode).pc == at_operand.current_fetched_word
            &&& takes_branch(at_operand, opcode.instruction) ==> m.begun(opcode).pc
                == at_operand.branch_target()
        }),
{
    reveal(Machine::begun);
    let stepped = Machine { pc: add16(m.pc, 1), ..m.loaded(opcode) };
    lemma_run_pc(stepped.fetched(opcode.mode), opcode.instruction);
}

/// The cycles of a whole instruction: the base cycles of its opcode, one
/// more where an instruction that reads its operand finds it in another
/// page, and the penalty of a branch.
pub proof fn lemma_instruction_cycles(m: Machine, opcode: DecodedOpcode)
    requires
        opcode_matrix(m.next_byte()) == Some(opcode),
    ensures
        ({
            let stepped = Machine { pc: add16(m.pc, 1), ..m.loaded(opcode) };
            let at_operand = stepped.fetched(opcode.mode);
            m.begun(opcode).cycles == opcode.cycles + stepped.page_cross_penalty()
                + branch_penalty(at_operand, opcode.instruction)
        }),
        2 <= m.begun(opcode).cycles <= 9,
{
    reveal(Machine::begun);
    crate::cpu::opcode::lemma_matrix_bounds(m.next_byte());
    let stepped = Machine { pc: add16(m.pc, 1), ..m.loaded(opcode) };
    lemma_run_cycles(stepped.fetched(opcode.mode), opcode.instruction);
}

/// Every tick adds exactly one to the total of cycles.
pub proof fn lemma_tick_counts(m: Machine)
    requires
        m.can_tick(),
    ensures
        m.tick().total_cycles == m.total_cycles + 1,
{
    if m.cycles == 0 {
        lemma_begun_frame(m, opcode_matrix(m.next_byte()).unwrap());
    }
}

/// A tick that finds an instruction in progress only counts: one cycle off
/// the instruction, one onto the total, and nothing else changes.
pub proof fn lemma_tick_waits(m: Machine)
    requires
        m.cycles != 0,
        m.total_cycles < u32::MAX,
    ensures
        m.tick() == (Machine {
            cycles: (m.cycles - 1) as u8,
            total_cycles: (m.total_cycles + 1) as u32,
            ..m
        }),
{
}

/// A tick that begins an instruction leaves one cycle less than the
/// instruction takes, which is at least one.
pub proof fn lemma_tick_begins(m: Machine)
    requires
        m.cycles == 0,
        m.can_tick(),
    ensures
        m.tick().cycles == m.begun(opcode_matrix(m.next_byte()).unwrap()).cycles - 1,
        1 <= m.tick().cycles <= 8,
{
    lemma_instruction_cycles(m, opcode_matrix(m.next_byte()).unwrap());
}

/// While an instruction is in progress the ticks only count down, and the
/// counter is at zero exactly when its cycles are over: the next fetch
/// finds it at zero.
pub proof fn lemma_instruction_runs_out(m: Machine, count: nat)
    requires
        count <= m.cycles,
        m.total_cycles + count <= u32::MAX,
    ensures
        m.advanced(count) == (Machine {
            cycles: (m.cycles - count) as u8,
            total_cycles: (m.total_cycles + count) as u32,
            ..m
        }),
        count == m.cycles ==> m.advanced(count).cycles == 0,
    decreases count,
{
    if count > 0 {
        lemma_tick_waits(m);
        lemma_instruction_runs_out(m.tick(), (count - 1) as nat);
    }
}

/// An instruction is over after as many ticks as it takes cycles: the
/// first tick carries it out, the others wait, and then the counter is at
/// zero again for the next fetch, with nothing else changed.
pub proof fn lemma_instruction_takes_its_cycles(m: Machine)
    requires
        m.cycles == 0,
        m.can_tick(),
        m.total_cycles + 9 <= u32::MAX,
    ensures
        ({
            let done = m.begun(opcode_matrix(m.next_byte()).unwrap());
            m.advanced(done.cycles as nat) == (Machine {
                cycles: 0,
                total_cycles: (m.total_cycles + done.cycles) as u32,
                ..done
            })
        }),
{
    let done = m.begun(opcode_matrix(m.next_byte()).unwrap());
    lemma_tick_begins(m);
    lemma_tick_counts(m);
    lemma_instruction_runs_out(m.tick(), (done.cycles - 1) as nat);
}

/// Setting a flag and then clearing it leaves it clear, whatever it was
/// before, and leaves the machine as clearing alone would: `SEC` and `CLC`,
/// `SED` and `CLD`, `SEI` and `CLI`. Clearing alone, as `CLV` does, leaves
/// the flag clear too.
pub proof fn lemma_set_then_clear(m: Machine, which: StatusFlags)
    ensures
        !m.set_flag(which, true).set_flag(which, false).flag(which),
        m.set_flag(which, true).set_flag(which, false) == m.set_flag(which, false),
        !m.set_flag(which, false).flag(which),
        m.set_flag(which, true).flag(which),
{
    reveal(flag);
    reveal(with_flag);
    lemma_one_bit(m.p, which.mask());
}

/// `SEC` then `CLC` leaves C clear whatever the flags were before, `SED`
/// then `CLD` leaves D clear, `SEI` then `CLI` leaves I clear, and `CLV`
/// leaves V clear.
#[verifier::rlimit(50)]
pub proof fn lemma_flag_instructions(m: Machine)
    ensures
        !m.run(Instruction::SEC).run(Instruction::CLC).flag(StatusFlags::C),
        !m.run(Instruction::SED).run(Instruction::CLD).flag(StatusFlags::D),
        !m.run(Instruction::SEI).run(Instruction::CLI).flag(StatusFlags::I),
        !m.run(Instruction::CLV).flag(StatusFlags::V),
{
    reveal(Machine::run);
    lemma_set_then_clear(m, StatusFlags::C);
    lemma_set_then_clear(m, StatusFlags::D);
    lemma_set_then_clear(m, StatusFlags::I);
    lemma_set_then_clear(m, StatusFlags::V);
}

/// Writing a flag changes no other flag.
pub proof fn lemma_flags_independent(m: Machine, which: StatusFlags, on: bool, other: StatusFlags)
    requires
        other != which,
    ensures
        m.set_flag(which, on).flag(which) == on,
        m.set_flag(which, on).flag(other) == m.flag(other),
{
    lemma_with_flag(m.p, which, on, other);
}

/// A byte that was pushed is the byte that is pulled, and the stack
/// pointer is back where it was.
pub proof fn lemma_push_pull(m: Machine, data: u8)
    requires
        m.bus.well_formed(),
    ensures
        m.push(data).pull().top() == data,
        m.push(data).pull().sp == m.sp,
{
    let slot = word(m.sp, crate::cpu::machine::STACK_PAGE);
    crate::bus::bus::lemma_ram_mirror(m.bus, slot, data, slot);
}

/// `PHA` then `PLA` gives A back, with Z and N set from it, and leaves the
/// stack pointer and the other registers as they were.
#[verifier::rlimit(50)]
pub proof fn lemma_pha_pla(m: Machine)
    requires
        m.bus.well_formed(),
    ensures
        m.run(Instruction::PHA).run(Instruction::PLA) == m.pha().pla(),
        m.pha().pla().a == m.a,
        m.pha().pla().sp == m.sp,
        m.pha().pla().p == crate::cpu::status::with_zn(m.p, m.a),
        m.pha().pla().flag(StatusFlags::Z) == (m.a == 0),
        m.pha().pla().flag(StatusFlags::N) == (m.a >= 0x80),
        m.pha().pla().x == m.x && m.pha().pla().y == m.y && m.pha().pla().pc == m.pc,
{
    assert(m.run(Instruction::PHA).run(Instruction::PLA) == m.pha().pla()) by {
        reveal(Machine::run);
    }
    lemma_push_pull(m, m.a);
    let zero = with_flag(m.p, StatusFlags::Z, m.a == 0);
    lemma_with_flag(zero, StatusFlags::N, m.a >= 0x80, StatusFlags::Z);
    lemma_with_flag(m.p, StatusFlags::Z, m.a == 0, StatusFlags::N);
}

/// `PHP` then `PLP` gives P back but for its two bits without a meaning:
/// the break flag is clear and bit 5 is set. Every other flag is as it
/// was, and so is the stack pointer.
#[verifier::rlimit(50)]
pub proof fn lemma_php_plp(m: Machine, which: StatusFlags)
    requires
        m.bus.well_formed(),
    ensures
        m.run(Instruction::PHP).run(Instruction::PLP) == m.php().plp(),
        m.php().plp().p == with_flag(with_flag(m.p, StatusFlags::U, true), StatusFlags::B, false),
        m.php().plp().sp == m.sp,
        !m.php().plp().flag(StatusFlags::B),
        m.php().plp().flag(StatusFlags::U),
        which != StatusFlags::B && which != StatusFlags::U ==> m.php().plp().flag(which)
            == m.flag(which),
{
    assert(m.run(Instruction::PHP).run(Instruction::PLP) == m.php().plp()) by {
        reveal(Machine::run);
    }
    let pushed = crate::cpu::status::pushed_status(m.p, true);
    lemma_push_pull(m, pushed);
    let p = m.p;
    reveal(with_flag);
    assert(((p | 0x10u8) | 0x20u8) & !0x10u8 == (p | 0x20u8) & !0x10u8) by (bit_vector);
    let set = with_flag(m.p, StatusFlags::U, true);
    lemma_with_flag(set, StatusFlags::B, false, which);
    lemma_with_flag(m.p, StatusFlags::U, true, which);
    lemma_with_flag(set, StatusFlags::B, false, StatusFlags::U);
}

/// A branch that is not taken changes nothing. One that is taken costs one
/// cycle, and a second one exactly if its target and the instruction
/// behind the branch differ in their high bytes.
pub proof fn lemma_branch_page_cross(m: Machine, which: StatusFlags, wanted: bool)
    ensures
        m.flag(which) != wanted ==> m.branch(which, wanted) == m,
        m.flag(which) == wanted ==> {
            let target = m.branch_target();
            let crossed: int = if m.pc & 0xFF00 != target & 0xFF00 {
                1
            } else {
                0
            };
            &&& m.branch(which, wanted).pc == target
            &&& m.branch(which, wanted).cycles == add8(m.cycles, 1 + crossed)
            &&& target == add16(m.pc, m.current_fetched_word as int)
        },
{
    crate::cpu::word::lemma_word_bits(m.pc, m.branch_target(), 0, 0);
}

/// The distance of a branch is signed: once fetched, it moves PC forward by
/// up to 127 bytes or back by up to 128.
pub proof fn lemma_branch_is_signed(m: Machine)
    ensures
        ({
            let at_operand = m.fetched(AddressingMode::Relative);
            at_operand.branch_target() == add16(at_operand.pc, signed(m.read(m.pc)))
        }),
{
    crate::cpu::word::lemma_sign_extended_add(
        m.fetched(AddressingMode::Relative).pc,
        m.read(m.pc),
    );
}

/// An indirect jump takes the low byte of its target from the pointer and
/// the high byte from the address after it, without carrying into the
/// pointer's high byte: behind `$xxFF` the high byte comes from `$xx00`.
pub proof fn lemma_indirect_jump(m: Machine, pointer: u16)
    ensures
        low(m.indirect_word(pointer)) == m.read(pointer),
        pointer & 0x00FF == 0x00FF ==> high(m.indirect_word(pointer)) == m.read(
            pointer & 0xFF00,
        ),
        pointer & 0x00FF != 0x00FF ==> high(m.indirect_word(pointer)) == m.read(
            add16(pointer, 1),
        ),
{
    assert(pointer & 0x00FF == pointer % 256 && pointer & 0xFF00 == (pointer / 256) * 256)
        by (bit_vector);
}

/// What `ADC` computes: the sum of A, the operand and the carry. A gets
/// its low byte, C says that it did not fit a byte, and V says that the sum
/// of the operands read as signed numbers did not fit a signed byte.
pub proof fn lemma_adc_adds(m: Machine)
    ensures
        ({
            let sum = m.a + m.operand() + m.carry();
            let signed_sum = signed(m.a) + signed(m.operand()) + m.carry();
            &&& m.adc().a == sum % 256
            &&& m.adc().flag(StatusFlags::C) == (sum > 255)
            &&& m.adc().flag(StatusFlags::Z) == (m.adc().a == 0)
            &&& m.adc().flag(StatusFlags::N) == (m.adc().a >= 0x80)
            &&& m.adc().flag(StatusFlags::V) == (signed_sum < -128 || signed_sum > 127)
        }),
{
    let operand = m.operand();
    let sum = m.a as int + operand as int + m.carry();
    let result = (sum % 256) as u8;
    let overflow = (!(m.a ^ operand) & (m.a ^ result)) & 0x80 != 0;
    lemma_overflow_bits(m.a, operand, result);
    let c = with_flag(m.p, StatusFlags::C, sum > 0xFF);
    let z = with_flag(c, StatusFlags::Z, result == 0);
    let v = with_flag(z, StatusFlags::V, overflow);
    lemma_with_flag(v, StatusFlags::N, result >= 0x80, StatusFlags::C);
    lemma_with_flag(v, StatusFlags::N, result >= 0x80, StatusFlags::Z);
    lemma_with_flag(v, StatusFlags::N, result >= 0x80, StatusFlags::V);
    lemma_with_flag(z, StatusFlags::V, overflow, StatusFlags::C);
    lemma_with_flag(z, StatusFlags::V, overflow, StatusFlags::Z);
    lemma_with_flag(c, StatusFlags::Z, result == 0, StatusFlags::C);
    lemma_with_flag(m.p, StatusFlags::C, sum > 0xFF, StatusFlags::Z);
}

/// What `SBC` computes: A less the operand, less one more if the carry is
/// clear. A gets the low byte of the difference, C says that nothing was
/// borrowed, and V says that the difference of the operands read as signed
/// numbers did not fit a signed byte.
pub proof fn lemma_sbc_subtracts(m: Machine)
    ensures
        ({
            let difference = m.a - m.operand() - (1 - m.carry());
            let signed_difference = signed(m.a) - signed(m.operand()) - (1 - m.carry());
            &&& m.sbc().a == difference % 256
            &&& m.sbc().flag(StatusFlags::C) == (difference >= 0)
            &&& m.sbc().flag(StatusFlags::Z) == (m.sbc().a == 0)
            &&& m.sbc().flag(StatusFlags::N) == (m.sbc().a >= 0x80)
            &&& m.sbc().flag(StatusFlags::V) == (signed_difference < -128 || signed_difference
                > 127)
        }),
{
    let operand = m.operand();
    let difference = m.a as int - operand as int - (1 - m.carry());
    let result = (difference % 256) as u8;
    let overflow = (m.a ^ operand) & 0x80 != 0 && (m.a ^ result) & 0x80 != 0;
    lemma_sign_bit(m.a, operand);
    lemma_sign_bit(m.a, result);
    let c = with_flag(m.p, StatusFlags::C, difference >= 0);
    let z = with_flag(c, StatusFlags::Z, result == 0);
    let v = with_flag(z, StatusFlags::V, overflow);
    lemma_with_flag(v, StatusFlags::N, result >= 0x80, StatusFlags::C);
    lemma_with_flag(v, StatusFlags::N, result >= 0x80, StatusFlags::Z);
    lemma_with_flag(v, StatusFlags::N, result >= 0x80, StatusFlags::V);
    lemma_with_flag(z, StatusFlags::V, overflow, StatusFlags::C);
    lemma_with_flag(z, StatusFlags::V, overflow, StatusFlags::Z);
    lemma_with_flag(c, StatusFlags::Z, result == 0, StatusFlags::C);
    lemma_with_flag(m.p, StatusFlags::C, difference >= 0, StatusFlags::Z);
}

/// Whether P shows its two bits without a meaning as the processor keeps
/// them while it runs: bit 5 set, the break flag clear.
pub open spec fn status_in_order(m: Machine) -> bool {
    m.flag(StatusFlags::U) && !m.flag(StatusFlags::B)
}

/// Writing any other flag leaves the break flag and bit 5 as they are.
pub proof fn lemma_spare_bits_are_separate()
    ensures
        forall|p: u8, which: StatusFlags, on: bool|
            which != StatusFlags::B ==> flag(#[trigger] with_flag(p, which, on), StatusFlags::B)
                == flag(p, StatusFlags::B),
        forall|p: u8, which: StatusFlags, on: bool|
            which != StatusFlags::U ==> flag(#[trigger] with_flag(p, which, on), StatusFlags::U)
                == flag(p, StatusFlags::U),
{
    assert forall|p: u8, which: StatusFlags, on: bool| which != StatusFlags::B implies flag(
        #[trigger] with_flag(p, which, on),
        StatusFlags::B,
    ) == flag(p, StatusFlags::B) by {
        lemma_with_flag(p, which, on, StatusFlags::B);
    }
    assert forall|p: u8, which: StatusFlags, on: bool| which != StatusFlags::U implies flag(
        #[trigger] with_flag(p, which, on),
        StatusFlags::U,
    ) == flag(p, StatusFlags::U) by {
        lemma_with_flag(p, which, on, StatusFlags::U);
    }
}

/// No instruction sets the break flag in P.
#[verifier::rlimit(50)]
pub proof fn lemma_run_keeps_break_clear(m: Machine, instruction: Instruction)
    requires
        !m.flag(StatusFlags::B),
    ensures
        !m.run(instruction).flag(StatusFlags::B),
{
    reveal(Machine::run);
    lemma_spare_bits_are_separate();
    lemma_with_flag(m.pull().top(), StatusFlags::B, false, StatusFlags::B);
}

/// P is in order when the processor is switched on.
pub proof fn lemma_status_at_power_on(image: Seq<u8>)
    ensures
        status_in_order(crate::cpu::cpu::CPU::power_on(image)),
{
    reveal(flag);
    assert(0x24u8 & 0x20u8 != 0 && 0x24u8 & 0x10u8 == 0) by (bit_vector);
}

/// With P in order it stays in order, whatever happens: a tick, an
/// interrupt request, a non-maskable interrupt.
#[verifier::rlimit(50)]
pub proof fn lemma_status_stays_in_order(m: Machine)
    requires
        status_in_order(m),
    ensures
        m.can_tick() ==> status_in_order(m.tick()),
        status_in_order(m.irq()),
        status_in_order(m.nmi()),
{
    lemma_spare_bits_are_separate();
    if m.can_tick() && m.cycles == 0 {
        reveal(Machine::begun);
        let opcode = opcode_matrix(m.next_byte()).unwrap();
        let stepped = Machine { pc: add16(m.pc, 1), ..m.loaded(opcode) };
        lemma_run_keeps_break_clear(stepped.fetched(opcode.mode), opcode.instruction);
        let done = stepped.executed();
        lemma_with_flag(done.p, StatusFlags::U, true, StatusFlags::B);
    }
}


/// Whether two machines hold the same cartridge.
pub open spec fn same_cartridge(before: Machine, after: Machine) -> bool {
    after.bus.prg == before.bus.prg && after.bus.mapper == before.bus.mapper
}

/// No instruction changes the cartridge, and none breaks the bus.
#[verifier::rlimit(50)]
pub proof fn lemma_run_keeps_cartridge(m: Machine, instruction: Instruction)
    ensures
        same_cartridge(m, m.run(instruction)),
        m.bus.well_formed() ==> m.run(instruction).bus.well_formed(),
{
    reveal(Machine::run);
    assert forall|bus: BusState, address: u16, data: u8|
        {
            &&& (#[trigger] bus_write(bus, address, data)).prg == bus.prg
            &&& bus_write(bus, address, data).mapper == bus.mapper
            &&& bus.well_formed() ==> bus_write(bus, address, data).well_formed()
        } by {
        lemma_write_keeps_cartridge(bus, address, data);
    }
}

/// Whatever happens, the machine keeps its cartridge and a well-formed
/// bus: a tick, a reset, an interrupt.
pub proof fn lemma_cartridge_stays(m: Machine)
    ensures
        m.can_tick() ==> same_cartridge(m, m.tick()),
        same_cartridge(m, m.reset()),
        same_cartridge(m, m.irq()),
        same_cartridge(m, m.nmi()),
        m.bus.well_formed() ==> {
            &&& m.can_tick() ==> m.tick().bus.well_formed()
            &&& m.reset().bus.well_formed()
            &&& m.irq().bus.well_formed()
            &&& m.nmi().bus.well_formed()
        },
{
    assert forall|bus: BusState, address: u16, data: u8|
        {
            &&& (#[trigger] bus_write(bus, address, data)).prg == bus.prg
            &&& bus_write(bus, address, data).mapper == bus.mapper
            &&& bus.well_formed() ==> bus_write(bus, address, data).well_formed()
        } by {
        lemma_write_keeps_cartridge(bus, address, data);
    }
    if m.can_tick() && m.cycles == 0 {
        reveal(Machine::begun);
        let opcode = opcode_matrix(m.next_byte()).unwrap();
        let stepped = Machine { pc: add16(m.pc, 1), ..m.loaded(opcode) };
        lemma_run_keeps_cartridge(stepped.fetched(opcode.mode), opcode.instruction);
    }
}

/// A write to the cartridge is not seen: the machine is after it as it was
/// before, so it runs on and traces as if nothing had been written.
pub proof fn lemma_rom_write_is_not_seen(m: Machine, address: u16, data: u8, count: nat)
    requires
        address >= crate::bus::bus::CARTRIDGE_START,
    ensures
        m.write(address, data) == m,
        m.write(address, data).advanced(count) == m.advanced(count),
        m.write(address, data).traced(0, count) == m.traced(0, count),
{
    crate::bus::bus::lemma_rom_is_read_only(m.bus, address, data);
}

} // verus!
