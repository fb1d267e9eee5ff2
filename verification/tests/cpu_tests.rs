use nes6502::bus::bus::MemoryMap;
use nes6502::cpu::cpu::CPU;
use nes6502::cpu::opcode::{AddressingMode, DecodeError, DecodedOpcode, Instruction, Opcode};
use nes6502::cpu::status::StatusFlags;

const C: u8 = 0x01;
const Z: u8 = 0x02;
const I: u8 = 0x04;
const D: u8 = 0x08;
const B: u8 = 0x10;
const U: u8 = 0x20;
const V: u8 = 0x40;
const N: u8 = 0x80;

/// An image with one bank of program ROM: the program at its start, which
/// the processor sees at `$8000` and at `$C000`, and the vectors at its
/// end: NMI to `$C200`, reset to `$C000`, IRQ to `$C100`.
fn cartridge(program: &[(usize, &[u8])]) -> Vec<u8> {
    let mut bytes = vec![0x4E, 0x45, 0x53, 0x1A, 1, 0, 0, 0, 0, 0, 0, 0, 0, 0, 0, 0];
    let mut prg = vec![0xEAu8; 0x4000];
    for (offset, code) in program {
        prg[*offset..*offset + code.len()].copy_from_slice(code);
    }
    prg[0x3FFA..].copy_from_slice(&[0x00, 0xC2, 0x00, 0xC0, 0x00, 0xC1]);
    bytes.extend(prg);
    bytes
}

/// A processor at `$C000` in front of the program.
fn machine(program: &[u8]) -> CPU {
    CPU::new(cartridge(&[(0, program)]))
}

/// Carries out one whole instruction and counts its ticks.
fn step(cpu: &mut CPU) -> u32 {
    assert_eq!(cpu.cycles, 0);
    assert!(cpu.can_clock());
    let before = cpu.total_cycles;
    cpu.clock();
    while cpu.cycles != 0 {
        cpu.clock();
    }
    cpu.total_cycles - before
}

fn line(pc: u16, bytes: &str, text: &str, registers: &str) -> String {
    format!("{:04X}  {:<8}  {:<32}{}", pc, bytes, text, registers)
}

#[test]
fn switches_on_in_front_of_the_program() {
    let cpu = machine(&[0xEA]);
    assert_eq!((cpu.a, cpu.x, cpu.y), (0, 0, 0));
    assert_eq!(cpu.pc, 0xC000);
    assert_eq!(cpu.sp, 0xFD);
    assert_eq!(cpu.p, 0x24);
    assert_eq!(cpu.cycles, 0);
    assert_eq!(cpu.total_cycles, 7);
    assert_eq!(cpu.current_instruction, 0);
    assert_eq!(cpu.current_fetched_word, 0);
    assert_eq!(
        cpu.current_opcode,
        DecodedOpcode { instruction: Instruction::NOP, mode: AddressingMode::Absolute, cycles: 0 }
    );
}

#[test]
fn reset_takes_the_program_counter_from_its_vector() {
    let mut cpu = machine(&[0xA9, 0x55]);
    cpu.a = 1;
    cpu.x = 2;
    cpu.y = 3;
    cpu.sp = 4;
    cpu.p = 0xFF;
    cpu.pc = 0x1234;
    cpu.reset();
    assert_eq!(cpu.pc, 0xC000);
    assert_eq!(cpu.sp, 0xFD);
    assert_eq!((cpu.a, cpu.x, cpu.y), (0, 0, 0));
    assert!(cpu.get_status(StatusFlags::B));
    assert_eq!(cpu.p, B);
    assert_eq!(cpu.cycles, 8);
    assert_eq!(cpu.total_cycles, 7);
    // eight ticks pass before the first opcode is read at $C000
    for _ in 0..8 {
        assert_eq!(cpu.current_instruction, 0);
        cpu.clock();
    }
    assert_eq!(cpu.cycles, 0);
    assert_eq!(cpu.pc, 0xC000);
    cpu.clock();
    assert_eq!(cpu.current_instruction, 0xA9);
    assert_eq!(cpu.a, 0x55);
    assert_eq!(cpu.pc, 0xC002);
}

#[test]
fn reset_follows_the_vector_of_the_cartridge() {
    let mut image = cartridge(&[]);
    let end = image.len();
    image[end - 4] = 0x34;
    image[end - 3] = 0x82;
    let mut cpu = CPU::new(image);
    cpu.reset();
    assert_eq!(cpu.pc, 0x8234);
}

#[test]
fn lda_immediate_zero() {
    let mut cpu = machine(&[0xA9, 0x00]);
    cpu.a = 0x33;
    assert_eq!(step(&mut cpu), 2);
    assert_eq!(cpu.a, 0);
    assert!(cpu.get_status(StatusFlags::Z));
    assert!(!cpu.get_status(StatusFlags::N));
    assert_eq!(cpu.p, U | I | Z);
    assert_eq!(cpu.pc, 0xC002);
}

#[test]
fn lda_immediate_negative() {
    let mut cpu = machine(&[0xA9, 0x80]);
    assert_eq!(step(&mut cpu), 2);
    assert_eq!(cpu.a, 0x80);
    assert!(!cpu.get_status(StatusFlags::Z));
    assert!(cpu.get_status(StatusFlags::N));
    assert_eq!(cpu.p, U | I | N);
}

#[test]
fn adc_overflows_into_the_sign() {
    let mut cpu = machine(&[0x69, 0x01]);
    cpu.a = 0x7F;
    cpu.set_status(StatusFlags::C, false);
    assert_eq!(step(&mut cpu), 2);
    assert_eq!(cpu.a, 0x80);
    assert!(cpu.get_status(StatusFlags::V));
    assert!(cpu.get_status(StatusFlags::N));
    assert!(!cpu.get_status(StatusFlags::C));
    assert!(!cpu.get_status(StatusFlags::Z));
    assert_eq!(cpu.p, U | I | V | N);
}

#[test]
fn adc_adds_the_carry_and_carries_out() {
    let mut cpu = machine(&[0x69, 0xFF, 0x69, 0x00, 0x69, 0x80]);
    cpu.a = 0x01;
    cpu.p = U | C;
    step(&mut cpu);
    // 0x01 + 0xFF + 1 = 0x101
    assert_eq!(cpu.a, 0x01);
    assert_eq!(cpu.p, U | C);
    step(&mut cpu);
    // 0x01 + 0x00 + 1 = 0x02
    assert_eq!(cpu.a, 0x02);
    assert_eq!(cpu.p, U);
    cpu.a = 0x80;
    step(&mut cpu);
    // -128 + -128 = 0 with carry and overflow
    assert_eq!(cpu.a, 0x00);
    assert_eq!(cpu.p, U | C | Z | V);
}

#[test]
fn the_decimal_flag_changes_no_arithmetic() {
    // SED; ADC #$01; SBC #$01
    let mut cpu = machine(&[0xF8, 0x69, 0x01, 0xE9, 0x01]);
    cpu.a = 0x09;
    cpu.p = U;
    step(&mut cpu);
    assert_eq!(cpu.p, U | D);
    step(&mut cpu);
    assert_eq!((cpu.a, cpu.p), (0x0A, U | D));
    cpu.a = 0x10;
    cpu.set_status(StatusFlags::C, true);
    step(&mut cpu);
    assert_eq!((cpu.a, cpu.p), (0x0F, U | D | C));
}

#[test]
fn sbc_borrows_when_carry_is_clear() {
    let mut cpu = machine(&[0xE9, 0x01, 0xE9, 0x01, 0xE9, 0x01, 0xEB, 0xFF]);
    cpu.a = 0x02;
    cpu.p = U | C;
    assert_eq!(step(&mut cpu), 2);
    assert_eq!(cpu.a, 0x01);
    assert_eq!(cpu.p, U | C);
    cpu.set_status(StatusFlags::C, false);
    step(&mut cpu);
    // 1 - 1 - 1 = -1
    assert_eq!(cpu.a, 0xFF);
    assert_eq!(cpu.p, U | N);
    cpu.a = 0x80;
    cpu.p = U | C;
    step(&mut cpu);
    // -128 - 1 = 127 with overflow
    assert_eq!(cpu.a, 0x7F);
    assert_eq!(cpu.p, U | C | V);
    // the undocumented encoding does the same: 0 - 255 - 1 = -256
    cpu.a = 0x00;
    cpu.p = U;
    assert_eq!(step(&mut cpu), 2);
    assert_eq!(cpu.a, 0x00);
    assert_eq!(cpu.p, U | Z);
}

#[test]
fn logic_sets_zero_and_negative() {
    let mut cpu = machine(&[0x29, 0x0F, 0x09, 0x80, 0x49, 0x85, 0x49, 0xFF]);
    cpu.a = 0xF5;
    cpu.p = U;
    step(&mut cpu);
    assert_eq!((cpu.a, cpu.p), (0x05, U));
    step(&mut cpu);
    assert_eq!((cpu.a, cpu.p), (0x85, U | N));
    step(&mut cpu);
    assert_eq!((cpu.a, cpu.p), (0x00, U | Z));
    step(&mut cpu);
    assert_eq!((cpu.a, cpu.p), (0xFF, U | N));
}

#[test]
fn shifts_the_accumulator() {
    let mut cpu = machine(&[0x0A, 0x4A, 0x2A, 0x6A, 0x6A]);
    cpu.a = 0x81;
    cpu.p = U;
    assert_eq!(step(&mut cpu), 2);
    assert_eq!((cpu.a, cpu.p), (0x02, U | C));
    step(&mut cpu);
    assert_eq!((cpu.a, cpu.p), (0x01, U));
    cpu.a = 0x80;
    cpu.p = U | C;
    step(&mut cpu);
    assert_eq!((cpu.a, cpu.p), (0x01, U | C));
    step(&mut cpu);
    assert_eq!((cpu.a, cpu.p), (0x80, U | C | N));
    step(&mut cpu);
    assert_eq!((cpu.a, cpu.p), (0xC0, U | N));
}

#[test]
fn shifts_memory_in_place() {
    let mut cpu = machine(&[0x06, 0x10, 0x46, 0x10, 0x26, 0x10, 0x66, 0x10, 0x1E, 0xFF, 0x02]);
    cpu.bus.write(0x0010, 0xC1).unwrap();
    cpu.p = U;
    assert_eq!(step(&mut cpu), 5);
    assert_eq!((cpu.bus.read(0x0010), cpu.p), (0x82, U | C | N));
    assert_eq!(step(&mut cpu), 5);
    assert_eq!((cpu.bus.read(0x0010), cpu.p), (0x41, U));
    cpu.p = U | C;
    step(&mut cpu);
    assert_eq!((cpu.bus.read(0x0010), cpu.p), (0x83, U | N));
    step(&mut cpu);
    assert_eq!((cpu.bus.read(0x0010), cpu.p), (0x41, U | C));
    // ASL $02FF,X takes seven cycles, page crossed or not
    cpu.x = 1;
    cpu.bus.write(0x0300, 0x40).unwrap();
    assert_eq!(step(&mut cpu), 7);
    assert_eq!((cpu.bus.read(0x0300), cpu.p), (0x80, U | N));
    assert_eq!(cpu.a, 0);
}

#[test]
fn bit_copies_the_top_bits_of_memory() {
    let mut cpu = machine(&[0x24, 0x10, 0x2C, 0x00, 0x02]);
    cpu.bus.write(0x0010, 0xC0).unwrap();
    cpu.bus.write(0x0200, 0x01).unwrap();
    cpu.a = 0x0F;
    cpu.p = U;
    assert_eq!(step(&mut cpu), 3);
    assert_eq!(cpu.p, U | Z | V | N);
    assert_eq!(step(&mut cpu), 4);
    assert_eq!(cpu.p, U);
    assert_eq!(cpu.a, 0x0F);
}

#[test]
fn compares_without_keeping_the_difference() {
    let mut cpu = machine(&[0xC9, 0x10, 0xC9, 0x11, 0xC9, 0x0F, 0xE0, 0x80, 0xC0, 0x01]);
    cpu.a = 0x10;
    cpu.x = 0x7F;
    cpu.y = 0x00;
    cpu.p = U;
    step(&mut cpu);
    assert_eq!(cpu.p, U | C | Z);
    step(&mut cpu);
    assert_eq!(cpu.p, U | N);
    step(&mut cpu);
    assert_eq!(cpu.p, U | C);
    step(&mut cpu);
    // 0x7F - 0x80 = 0xFF
    assert_eq!(cpu.p, U | N);
    step(&mut cpu);
    // 0x00 - 0x01 = 0xFF
    assert_eq!(cpu.p, U | N);
    assert_eq!((cpu.a, cpu.x, cpu.y), (0x10, 0x7F, 0x00));
}

#[test]
fn counters_wrap_around() {
    let mut cpu = machine(&[0xE8, 0xCA, 0xCA, 0xC8, 0x88, 0x88, 0xE6, 0x10, 0xC6, 0x10, 0xC6, 0x10]);
    cpu.x = 0xFF;
    cpu.y = 0xFF;
    cpu.p = U;
    assert_eq!(step(&mut cpu), 2);
    assert_eq!((cpu.x, cpu.p), (0x00, U | Z));
    step(&mut cpu);
    assert_eq!((cpu.x, cpu.p), (0xFF, U | N));
    step(&mut cpu);
    assert_eq!((cpu.x, cpu.p), (0xFE, U | N));
    step(&mut cpu);
    assert_eq!((cpu.y, cpu.p), (0x00, U | Z));
    step(&mut cpu);
    assert_eq!((cpu.y, cpu.p), (0xFF, U | N));
    step(&mut cpu);
    assert_eq!((cpu.y, cpu.p), (0xFE, U | N));
    cpu.bus.write(0x0010, 0xFF).unwrap();
    assert_eq!(step(&mut cpu), 5);
    assert_eq!((cpu.bus.read(0x0010), cpu.p), (0x00, U | Z));
    assert_eq!(step(&mut cpu), 5);
    assert_eq!((cpu.bus.read(0x0010), cpu.p), (0xFF, U | N));
    step(&mut cpu);
    assert_eq!((cpu.bus.read(0x0010), cpu.p), (0xFE, U | N));
}

#[test]
fn transfers_set_the_flags_but_for_txs() {
    let mut cpu = machine(&[0xAA, 0xA8, 0xBA, 0x8A, 0x98, 0x9A]);
    cpu.a = 0x80;
    cpu.sp = 0x00;
    cpu.p = U;
    step(&mut cpu);
    assert_eq!((cpu.x, cpu.p), (0x80, U | N));
    step(&mut cpu);
    assert_eq!((cpu.y, cpu.p), (0x80, U | N));
    step(&mut cpu);
    assert_eq!((cpu.x, cpu.p), (0x00, U | Z));
    step(&mut cpu);
    assert_eq!((cpu.a, cpu.p), (0x00, U | Z));
    step(&mut cpu);
    assert_eq!((cpu.a, cpu.p), (0x80, U | N));
    cpu.x = 0x00;
    assert_eq!(step(&mut cpu), 2);
    assert_eq!((cpu.sp, cpu.p), (0x00, U | N));
}

#[test]
fn stores_leave_the_flags_alone() {
    let mut cpu = machine(&[0x85, 0x10, 0x86, 0x11, 0x84, 0x12, 0x8D, 0x00, 0x40]);
    cpu.a = 0x00;
    cpu.x = 0x80;
    cpu.y = 0x7F;
    cpu.p = U | C;
    assert_eq!(step(&mut cpu), 3);
    assert_eq!(step(&mut cpu), 3);
    assert_eq!(step(&mut cpu), 3);
    cpu.bus.write(0x0010, 0x00).unwrap();
    assert_eq!(cpu.bus.read(0x0011), 0x80);
    assert_eq!(cpu.bus.read(0x0012), 0x7F);
    assert_eq!(cpu.p, U | C);
    // a store to a register of the sound unit
    cpu.a = 0x3F;
    assert_eq!(step(&mut cpu), 4);
    assert_eq!(cpu.p, U | C);
}

#[test]
fn flag_instructions_set_and_clear_one_flag() {
    for before in [0x00u8, 0xFF, U | I, V | N] {
        // SEC CLC, SED CLD, SEI CLI, CLV
        let mut cpu = machine(&[0x38, 0x18, 0xF8, 0xD8, 0x78, 0x58, 0xB8]);
        cpu.p = before;
        let rest = before | U;
        assert_eq!(step(&mut cpu), 2);
        assert_eq!(cpu.p, rest | C);
        assert_eq!(step(&mut cpu), 2);
        assert_eq!(cpu.p, rest & !C);
        assert!(!cpu.get_status(StatusFlags::C));
        step(&mut cpu);
        assert_eq!(cpu.p, rest & !C | D);
        step(&mut cpu);
        assert_eq!(cpu.p, rest & !C & !D);
        step(&mut cpu);
        assert_eq!(cpu.p, rest & !C & !D | I);
        step(&mut cpu);
        assert_eq!(cpu.p, rest & !C & !D & !I);
        step(&mut cpu);
        assert_eq!(cpu.p, rest & !C & !D & !I & !V);
    }
}

#[test]
fn pha_then_pla_gives_the_accumulator_back() {
    for value in [0x00u8, 0x01, 0x7F, 0x80, 0xFF] {
        let mut cpu = machine(&[0x48, 0xA9, 0x55, 0x68]);
        cpu.a = value;
        cpu.p = U | C | V;
        assert_eq!(step(&mut cpu), 3);
        assert_eq!(cpu.sp, 0xFC);
        assert_eq!(cpu.bus.read(0x01FD), value);
        step(&mut cpu);
        assert_eq!(cpu.a, 0x55);
        assert_eq!(step(&mut cpu), 4);
        assert_eq!(cpu.a, value);
        assert_eq!(cpu.sp, 0xFD);
        assert_eq!(cpu.get_status(StatusFlags::Z), value == 0);
        assert_eq!(cpu.get_status(StatusFlags::N), value >= 0x80);
        assert!(cpu.get_status(StatusFlags::C));
        assert!(cpu.get_status(StatusFlags::V));
    }
}

#[test]
fn php_then_plp_gives_the_status_back() {
    for value in [U, U | C | N, U | Z | I | D | V, 0xEF] {
        // PHP, SEC/CLV/... to disturb P, PLP
        let mut cpu = machine(&[0x08, 0xA9, 0x00, 0x38, 0x28]);
        cpu.p = value;
        assert_eq!(step(&mut cpu), 3);
        // the copy on the stack has the break flag and bit 5
        assert_eq!(cpu.bus.read(0x01FD), value | B | U);
        assert_eq!(cpu.p, value);
        assert_eq!(cpu.sp, 0xFC);
        step(&mut cpu);
        step(&mut cpu);
        assert_eq!(step(&mut cpu), 4);
        assert_eq!(cpu.p, value);
        assert_eq!(cpu.sp, 0xFD);
    }
}

#[test]
fn plp_drops_the_break_flag() {
    let mut cpu = machine(&[0x28]);
    cpu.sp = 0x10;
    cpu.bus.write(0x0111, 0xFF).unwrap();
    step(&mut cpu);
    assert_eq!(cpu.p, 0xEF);
    assert_eq!(cpu.sp, 0x11);
}

#[test]
fn the_stack_pointer_wraps_in_its_page() {
    let mut cpu = machine(&[0x48, 0x48, 0x68, 0x68]);
    cpu.sp = 0x00;
    cpu.a = 0xAA;
    step(&mut cpu);
    assert_eq!(cpu.sp, 0xFF);
    assert_eq!(cpu.bus.read(0x0100), 0xAA);
    cpu.a = 0xBB;
    step(&mut cpu);
    assert_eq!(cpu.sp, 0xFE);
    assert_eq!(cpu.bus.read(0x01FF), 0xBB);
    cpu.a = 0;
    step(&mut cpu);
    assert_eq!((cpu.a, cpu.sp), (0xBB, 0xFF));
    step(&mut cpu);
    assert_eq!((cpu.a, cpu.sp), (0xAA, 0x00));
}

#[test]
fn jsr_pushes_its_last_byte_and_rts_returns_behind_it() {
    let mut cpu = machine(&[0x20, 0x34, 0x12]);
    cpu.pc = 0x8000;
    cpu.bus.write(0x1234, 0x60).unwrap();
    assert_eq!(step(&mut cpu), 6);
    assert_eq!(cpu.bus.read(0x01FD), 0x80);
    assert_eq!(cpu.bus.read(0x01FC), 0x02);
    assert_eq!(cpu.pc, 0x1234);
    assert_eq!(cpu.sp, 0xFB);
    assert_eq!(step(&mut cpu), 6);
    assert_eq!(cpu.pc, 0x8003);
    assert_eq!(cpu.sp, 0xFD);
}

#[test]
fn jmp_absolute_goes_to_its_operand() {
    let mut cpu = machine(&[0x4C, 0xF5, 0xC5]);
    assert_eq!(step(&mut cpu), 3);
    assert_eq!(cpu.pc, 0xC5F5);
    assert_eq!(cpu.p, 0x24);
}

#[test]
fn jmp_indirect_wraps_within_the_page_of_its_pointer() {
    let mut cpu = machine(&[0x6C, 0xFF, 0x02]);
    cpu.bus.write(0x02FF, 0x80).unwrap();
    cpu.bus.write(0x0200, 0x50).unwrap();
    cpu.bus.write(0x0300, 0x40).unwrap();
    assert_eq!(step(&mut cpu), 5);
    assert_eq!(cpu.pc, 0x5080);
}

#[test]
fn jmp_indirect_reads_a_pointer_inside_a_page() {
    let mut cpu = machine(&[0x6C, 0x10, 0x02]);
    cpu.bus.write(0x0210, 0x34).unwrap();
    cpu.bus.write(0x0211, 0x12).unwrap();
    cpu.bus.write(0x0200, 0x50).unwrap();
    assert_eq!(step(&mut cpu), 5);
    assert_eq!(cpu.pc, 0x1234);
}

#[test]
fn a_branch_not_taken_costs_two_cycles() {
    let mut cpu = machine(&[0xD0, 0x10, 0xF0, 0x10]);
    cpu.p = U | Z;
    assert_eq!(step(&mut cpu), 2);
    assert_eq!(cpu.pc, 0xC002);
    cpu.p = U;
    assert_eq!(step(&mut cpu), 2);
    assert_eq!(cpu.pc, 0xC004);
}

#[test]
fn a_branch_taken_costs_three_cycles_within_a_page() {
    let mut cpu = machine(&[0xD0, 0x10]);
    cpu.p = U;
    assert_eq!(step(&mut cpu), 3);
    assert_eq!(cpu.pc, 0xC012);
    // backwards, onto itself
    let mut cpu = machine(&[0xF0, 0xFE]);
    cpu.p = U | Z;
    assert_eq!(step(&mut cpu), 3);
    assert_eq!(cpu.pc, 0xC000);
}

#[test]
fn a_branch_taken_costs_four_cycles_across_a_page() {
    // BNE +1 at $C0FD: behind the operand PC is $C0FF, the target $C100
    let mut cpu = CPU::new(cartridge(&[(0xFD, &[0xD0, 0x01])]));
    cpu.pc = 0xC0FD;
    cpu.p = U;
    assert_eq!(step(&mut cpu), 4);
    assert_eq!(cpu.pc, 0xC100);
    // BNE -3 at $C100: behind the operand PC is $C102, the target $C0FF
    let mut cpu = CPU::new(cartridge(&[(0x100, &[0xD0, 0xFD])]));
    cpu.pc = 0xC100;
    cpu.p = U;
    assert_eq!(step(&mut cpu), 4);
    assert_eq!(cpu.pc, 0xC0FF);
    // BNE +0 at $C0FE: PC is $C100 behind the operand, and stays there
    let mut cpu = CPU::new(cartridge(&[(0xFE, &[0xD0, 0x00])]));
    cpu.pc = 0xC0FE;
    cpu.p = U;
    assert_eq!(step(&mut cpu), 3);
    assert_eq!(cpu.pc, 0xC100);
}

#[test]
fn every_branch_tests_its_own_flag() {
    let branches: [(u8, u8, bool); 8] = [
        (0x90, C, false),
        (0xB0, C, true),
        (0xD0, Z, false),
        (0xF0, Z, true),
        (0x10, N, false),
        (0x30, N, true),
        (0x50, V, false),
        (0x70, V, true),
    ];
    for (opcode, flag, wanted) in branches {
        for set in [false, true] {
            let mut cpu = machine(&[opcode, 0x20]);
            cpu.p = if set { U | flag } else { 0xFF & !flag };
            step(&mut cpu);
            assert_eq!(cpu.pc, if set == wanted { 0xC022 } else { 0xC002 });
        }
    }
}

#[test]
fn a_read_across_a_page_costs_one_more_cycle() {
    // LDA $C0FF,X
    let mut cpu = machine(&[0xBD, 0xFF, 0xC0, 0xBD, 0xFF, 0xC0]);
    cpu.x = 0;
    assert_eq!(step(&mut cpu), 4);
    cpu.x = 1;
    assert_eq!(step(&mut cpu), 5);
    // LDA ($10),Y
    let mut cpu = machine(&[0xB1, 0x10, 0xB1, 0x10]);
    cpu.bus.write(0x0010, 0xFF).unwrap();
    cpu.bus.write(0x0011, 0x02).unwrap();
    cpu.bus.write(0x0300, 0x77).unwrap();
    cpu.y = 0;
    assert_eq!(step(&mut cpu), 5);
    cpu.y = 1;
    assert_eq!(step(&mut cpu), 6);
    assert_eq!(cpu.a, 0x77);
}

#[test]
fn a_write_across_a_page_costs_nothing_more() {
    // STA $02FF,X and STA ($10),Y
    let mut cpu = machine(&[0x9D, 0xFF, 0x02, 0x91, 0x10]);
    cpu.bus.write(0x0010, 0xFF).unwrap();
    cpu.bus.write(0x0011, 0x02).unwrap();
    cpu.a = 0x42;
    cpu.x = 1;
    cpu.y = 2;
    assert_eq!(step(&mut cpu), 5);
    assert_eq!(cpu.bus.read(0x0300), 0x42);
    assert_eq!(step(&mut cpu), 6);
    assert_eq!(cpu.bus.read(0x0301), 0x42);
}

#[test]
fn zero_page_indexing_stays_in_the_zero_page() {
    // LDA $F0,X with X = $20 reads $10; LDX $F0,Y likewise
    let mut cpu = machine(&[0xB5, 0xF0, 0xB6, 0xF0]);
    cpu.bus.write(0x0010, 0x99).unwrap();
    cpu.bus.write(0x0110, 0x11).unwrap();
    cpu.x = 0x20;
    cpu.y = 0x20;
    assert_eq!(step(&mut cpu), 4);
    assert_eq!(cpu.a, 0x99);
    assert_eq!(step(&mut cpu), 4);
    assert_eq!(cpu.x, 0x99);
}

#[test]
fn indexed_indirect_reads_its_pointer_from_the_zero_page() {
    // LDA ($F0,X) with X = $0F: pointer at $FF and $00
    let mut cpu = machine(&[0xA1, 0xF0]);
    cpu.bus.write(0x00FF, 0x34).unwrap();
    cpu.bus.write(0x0000, 0x02).unwrap();
    cpu.bus.write(0x0100, 0x07).unwrap();
    cpu.bus.write(0x0234, 0xC3).unwrap();
    cpu.x = 0x0F;
    assert_eq!(step(&mut cpu), 6);
    assert_eq!(cpu.a, 0xC3);
    assert_eq!(cpu.current_fetched_word, 0x0234);
    // with X = $20 the pointer wraps to $10
    let mut cpu = machine(&[0xA1, 0xF0]);
    cpu.bus.write(0x0010, 0x00).unwrap();
    cpu.bus.write(0x0011, 0x03).unwrap();
    cpu.bus.write(0x0300, 0x5C).unwrap();
    cpu.x = 0x20;
    step(&mut cpu);
    assert_eq!(cpu.a, 0x5C);
}

#[test]
fn indirect_indexed_wraps_its_pointer_and_its_sum() {
    // LDA ($FF),Y: pointer at $FF and $00
    let mut cpu = machine(&[0xB1, 0xFF]);
    cpu.bus.write(0x00FF, 0xFF).unwrap();
    cpu.bus.write(0x0000, 0xFF).unwrap();
    cpu.bus.write(0x0100, 0x01).unwrap();
    cpu.bus.write(0x0001, 0x6D).unwrap();
    cpu.y = 2;
    // $FFFF + 2 wraps to $0001
    assert_eq!(step(&mut cpu), 6);
    assert_eq!(cpu.current_fetched_word, 0x0001);
    assert_eq!(cpu.a, 0x6D);
}

#[test]
fn the_program_counter_wraps_at_the_end_of_memory() {
    // LDA #$xx at $FFFF takes its operand from $0000
    let mut image = cartridge(&[]);
    let end = image.len();
    image[end - 1] = 0xA9;
    let mut cpu = CPU::new(image);
    cpu.bus.write(0x0000, 0x42).unwrap();
    cpu.pc = 0xFFFF;
    assert_eq!(step(&mut cpu), 2);
    assert_eq!(cpu.a, 0x42);
    assert_eq!(cpu.pc, 0x0001);
}

#[test]
fn every_sequential_instruction_moves_behind_its_own_bytes() {
    for byte in 0..=255u8 {
        let Ok(opcode) = byte.decode() else { continue };
        if !opcode.instruction.can_execute() {
            continue;
        }
        let jumps = matches!(
            opcode.instruction,
            Instruction::JMP | Instruction::JSR | Instruction::RTS | Instruction::RTI | Instruction::BRK
        );
        let mut cpu = machine(&[byte, 0x10, 0x02]);
        // no branch is taken with these flags but BNE, BPL, BCC, BVC
        cpu.p = U;
        let taken = matches!(
            opcode.instruction,
            Instruction::BNE | Instruction::BPL | Instruction::BCC | Instruction::BVC
        );
        step(&mut cpu);
        if !jumps && !taken {
            assert_eq!(cpu.pc, 0xC001 + opcode.mode.operand_length() as u16, "{:02X}", byte);
        }
        assert_eq!(cpu.cycles, 0);
        assert_eq!(cpu.current_instruction, byte);
        assert_eq!(cpu.current_opcode, opcode);
    }
}

#[test]
fn the_cycle_counter_is_zero_between_instructions() {
    let mut cpu = machine(&[0xA9, 0x01, 0x8D, 0x00, 0x02, 0xEE, 0x00, 0x02, 0x4C, 0x00, 0xC0]);
    let mut total = cpu.total_cycles;
    for expected in [2u8, 4, 6, 3, 2, 4, 6, 3] {
        assert_eq!(cpu.cycles, 0);
        cpu.clock();
        total += 1;
        assert_eq!(cpu.total_cycles, total);
        assert_eq!(cpu.cycles, expected - 1);
        let (pc, a) = (cpu.pc, cpu.a);
        while cpu.cycles != 0 {
            let left = cpu.cycles;
            cpu.clock();
            total += 1;
            assert_eq!(cpu.total_cycles, total);
            assert_eq!(cpu.cycles, left - 1);
            assert_eq!((cpu.pc, cpu.a), (pc, a));
        }
    }
    // each round stores 1 and increments it
    assert_eq!(cpu.bus.read(0x0200), 2);
}

#[test]
fn brk_pushes_the_address_behind_its_padding_byte() {
    let mut cpu = machine(&[0x00, 0xFF]);
    cpu.p = U | C;
    assert_eq!(step(&mut cpu), 7);
    assert_eq!(cpu.bus.read(0x01FD), 0xC0);
    assert_eq!(cpu.bus.read(0x01FC), 0x02);
    assert_eq!(cpu.bus.read(0x01FB), U | C | B);
    assert_eq!(cpu.sp, 0xFA);
    assert_eq!(cpu.p, U | C | I);
    assert_eq!(cpu.pc, 0xC100);
}

#[test]
fn rti_returns_to_the_address_on_the_stack() {
    let mut cpu = machine(&[0x40]);
    cpu.sp = 0xFA;
    cpu.bus.write(0x01FB, 0xFF).unwrap();
    cpu.bus.write(0x01FC, 0x02).unwrap();
    cpu.bus.write(0x01FD, 0xC0).unwrap();
    assert_eq!(step(&mut cpu), 6);
    assert_eq!(cpu.pc, 0xC002);
    assert_eq!(cpu.sp, 0xFD);
    assert_eq!(cpu.p, 0xEF);
}

#[test]
fn an_interrupt_request_waits_for_the_interrupt_flag() {
    let mut cpu = machine(&[0xEA]);
    cpu.pc = 0xC123;
    cpu.p = U | I | C;
    cpu.irq();
    assert_eq!(cpu.pc, 0xC123);
    assert_eq!(cpu.sp, 0xFD);
    assert_eq!(cpu.p, U | I | C);
    assert_eq!(cpu.cycles, 0);
    cpu.p = U | C | B;
    cpu.irq();
    assert_eq!(cpu.bus.read(0x01FD), 0xC1);
    assert_eq!(cpu.bus.read(0x01FC), 0x23);
    // the copy on the stack has the break flag clear and bit 5 set
    assert_eq!(cpu.bus.read(0x01FB), U | C);
    assert_eq!(cpu.sp, 0xFA);
    assert_eq!(cpu.p, U | C | B | I);
    assert_eq!(cpu.pc, 0xC100);
    assert_eq!(cpu.cycles, 7);
    assert_eq!(cpu.current_fetched_word, 0xFFFE);
}

#[test]
fn a_non_maskable_interrupt_is_always_taken() {
    let mut cpu = machine(&[0xEA]);
    cpu.pc = 0x8456;
    cpu.p = I | N;
    cpu.nmi();
    assert_eq!(cpu.bus.read(0x01FD), 0x84);
    assert_eq!(cpu.bus.read(0x01FC), 0x56);
    assert_eq!(cpu.bus.read(0x01FB), U | I | N);
    assert_eq!(cpu.sp, 0xFA);
    assert_eq!(cpu.p, I | N);
    assert_eq!(cpu.pc, 0xC200);
    assert_eq!(cpu.cycles, 7);
    assert_eq!(cpu.current_fetched_word, 0xFFFA);
    for _ in 0..7 {
        cpu.clock();
    }
    assert_eq!(cpu.cycles, 0);
    assert_eq!(cpu.total_cycles, 14);
}

#[test]
fn lax_loads_two_registers() {
    let mut cpu = machine(&[0xA7, 0x10, 0xBF, 0xFF, 0x02]);
    cpu.bus.write(0x0010, 0x80).unwrap();
    cpu.bus.write(0x0300, 0x00).unwrap();
    cpu.p = U;
    assert_eq!(step(&mut cpu), 3);
    assert_eq!((cpu.a, cpu.x, cpu.p), (0x80, 0x80, U | N));
    cpu.y = 1;
    assert_eq!(step(&mut cpu), 5);
    assert_eq!((cpu.a, cpu.x, cpu.p), (0x00, 0x00, U | Z));
}

#[test]
fn sax_stores_the_common_bits() {
    let mut cpu = machine(&[0x87, 0x10]);
    cpu.a = 0xF0;
    cpu.x = 0x3C;
    cpu.p = U;
    assert_eq!(step(&mut cpu), 3);
    assert_eq!(cpu.bus.read(0x0010), 0x30);
    assert_eq!(cpu.p, U);
}

#[test]
fn dcp_decrements_and_compares() {
    let mut cpu = machine(&[0xC7, 0x10, 0xC3, 0x00]);
    cpu.bus.write(0x0010, 0x11).unwrap();
    cpu.a = 0x10;
    cpu.p = U;
    assert_eq!(step(&mut cpu), 5);
    assert_eq!(cpu.bus.read(0x0010), 0x10);
    assert_eq!((cpu.a, cpu.p), (0x10, U | C | Z));
    // DCP ($00,X)
    cpu.bus.write(0x0000, 0x10).unwrap();
    cpu.bus.write(0x0001, 0x00).unwrap();
    cpu.x = 0;
    assert_eq!(step(&mut cpu), 8);
    assert_eq!(cpu.bus.read(0x0010), 0x0F);
    assert_eq!(cpu.p, U | C);
}

#[test]
fn isc_increments_and_subtracts() {
    let mut cpu = machine(&[0xE7, 0x10]);
    cpu.bus.write(0x0010, 0x0F).unwrap();
    cpu.a = 0x20;
    cpu.p = U | C;
    assert_eq!(step(&mut cpu), 5);
    assert_eq!(cpu.bus.read(0x0010), 0x10);
    assert_eq!((cpu.a, cpu.p), (0x10, U | C));
}

#[test]
fn slo_shifts_and_ors() {
    let mut cpu = machine(&[0x07, 0x10]);
    cpu.bus.write(0x0010, 0x81).unwrap();
    cpu.a = 0x10;
    cpu.p = U;
    assert_eq!(step(&mut cpu), 5);
    assert_eq!(cpu.bus.read(0x0010), 0x02);
    assert_eq!((cpu.a, cpu.p), (0x12, U | C));
}

#[test]
fn rla_rotates_and_ands() {
    let mut cpu = machine(&[0x27, 0x10]);
    cpu.bus.write(0x0010, 0x81).unwrap();
    cpu.a = 0xFF;
    cpu.p = U | C;
    assert_eq!(step(&mut cpu), 5);
    assert_eq!(cpu.bus.read(0x0010), 0x03);
    assert_eq!((cpu.a, cpu.p), (0x03, U | C));
}

#[test]
fn sre_shifts_and_xors() {
    let mut cpu = machine(&[0x47, 0x10]);
    cpu.bus.write(0x0010, 0x03).unwrap();
    cpu.a = 0x01;
    cpu.p = U;
    assert_eq!(step(&mut cpu), 5);
    assert_eq!(cpu.bus.read(0x0010), 0x01);
    assert_eq!((cpu.a, cpu.p), (0x00, U | C | Z));
}

#[test]
fn rra_rotates_and_adds() {
    let mut cpu = machine(&[0x67, 0x10]);
    cpu.bus.write(0x0010, 0x03).unwrap();
    cpu.a = 0x10;
    cpu.p = U;
    assert_eq!(step(&mut cpu), 5);
    // $03 rotates to $01 with carry; $10 + $01 + 1 = $12
    assert_eq!(cpu.bus.read(0x0010), 0x01);
    assert_eq!((cpu.a, cpu.p), (0x12, U));
}

#[test]
fn undocumented_nops_only_take_their_time() {
    let mut cpu = machine(&[0x1A, 0x80, 0xFF, 0x04, 0x10, 0x0C, 0x00, 0x02, 0x14, 0x10, 0x1C, 0xFF,
        0x02, 0x1C, 0xFF, 0x02]);
    cpu.p = U | N;
    cpu.a = 0x5A;
    assert_eq!(step(&mut cpu), 2);
    assert_eq!(step(&mut cpu), 2);
    assert_eq!(step(&mut cpu), 3);
    assert_eq!(step(&mut cpu), 4);
    assert_eq!(step(&mut cpu), 4);
    cpu.x = 0;
    assert_eq!(step(&mut cpu), 4);
    cpu.x = 1;
    assert_eq!(step(&mut cpu), 5);
    assert_eq!(cpu.pc, 0xC010);
    assert_eq!((cpu.a, cpu.p), (0x5A, U | N));
}

#[test]
fn refuses_a_byte_that_is_no_opcode_and_changes_nothing() {
    let mut cpu = machine(&[0x02]);
    cpu.p = 0x00;
    assert!(!cpu.can_clock());
    assert_eq!(
        cpu.load_instruction(),
        Err(DecodeError::IllegalUnimplementedOpcode { opcode: 0x02 })
    );
    assert_eq!(cpu.p, 0x00);
    assert_eq!(cpu.pc, 0xC000);
    assert_eq!(cpu.cycles, 0);
    assert_eq!(cpu.current_instruction, 0);
}

#[test]
fn loads_an_instruction_without_carrying_it_out() {
    let mut cpu = machine(&[0xAD, 0x00, 0x02]);
    cpu.p = C;
    let opcode =
        DecodedOpcode { instruction: Instruction::LDA, mode: AddressingMode::Absolute, cycles: 4 };
    assert_eq!(cpu.load_instruction(), Ok(opcode));
    assert_eq!(cpu.current_instruction, 0xAD);
    assert_eq!(cpu.current_opcode, opcode);
    assert_eq!(cpu.cycles, 4);
    assert_eq!(cpu.p, C | U);
    assert_eq!(cpu.pc, 0xC000);
    assert_eq!(cpu.total_cycles, 7);
}

#[test]
fn cannot_tick_on_an_instruction_without_behaviour() {
    for byte in [0x4Bu8, 0x0B, 0x2B, 0x6B, 0xCB] {
        let mut cpu = machine(&[byte, 0x00]);
        assert!(!cpu.can_clock());
        assert!(cpu.load_instruction().is_ok());
    }
    let mut cpu = machine(&[0xEA]);
    assert!(cpu.can_clock());
    cpu.total_cycles = u32::MAX;
    assert!(!cpu.can_clock());
    cpu.total_cycles = u32::MAX - 1;
    assert!(cpu.can_clock());
    cpu.clock();
    assert_eq!(cpu.total_cycles, u32::MAX);
}

#[test]
fn a_trace_line_has_the_columns_of_the_test_logs() {
    let mut cpu = machine(&[0x4C, 0xF5, 0xC5]);
    assert_eq!(
        cpu.debug_clock(),
        "C000  4C F5 C5  JMP $C5F5                       A:00 X:00 Y:00 P:24 SP:FD CYC:7"
    );
    assert_eq!(cpu.pc, 0xC5F5);
    assert_eq!(cpu.total_cycles, 8);
    assert_eq!(cpu.cycles, 2);
    // in the middle of the instruction the line shows the processor as it is
    assert_eq!(
        cpu.debug_clock(),
        "C5F5  4C EA EA  JMP $EAEA                       A:00 X:00 Y:00 P:24 SP:FD CYC:8"
    );
    assert_eq!(cpu.total_cycles, 9);
    assert_eq!(cpu.cycles, 1);
}

#[test]
fn a_trace_line_shows_every_register() {
    let mut cpu = machine(&[0xB1, 0x10]);
    cpu.a = 0x1A;
    cpu.x = 0x2B;
    cpu.y = 0x3C;
    cpu.p = 0xC1;
    cpu.sp = 0x0E;
    cpu.total_cycles = 26554;
    cpu.current_instruction = 0xB1;
    cpu.current_opcode = DecodedOpcode {
        instruction: Instruction::LDA,
        mode: AddressingMode::IndirectIndexed,
        cycles: 5,
    };
    assert_eq!(
        cpu.trace_line(),
        "C000  B1 10     LDA ($10), Y                    A:1A X:2B Y:3C P:C1 SP:0E CYC:26554"
    );
    cpu.current_instruction = 0xEA;
    cpu.current_opcode =
        DecodedOpcode { instruction: Instruction::NOP, mode: AddressingMode::Implied, cycles: 2 };
    assert_eq!(
        cpu.trace_line(),
        line(0xC000, "EA", "NOP", "A:1A X:2B Y:3C P:C1 SP:0E CYC:26554")
    );
    assert_eq!(
        cpu.trace_line(),
        "C000  EA        NOP                             A:1A X:2B Y:3C P:C1 SP:0E CYC:26554"
    );
}

#[test]
fn traces_a_loop_until_it_meets_a_byte_that_is_no_opcode() {
    // LDX #$02; DEX; BNE -3; then a byte without a meaning
    let mut cpu = machine(&[0xA2, 0x02, 0xCA, 0xD0, 0xFD, 0x02]);
    let trace = cpu.run_trace(1000);
    let expected = [
        line(0xC000, "A2 02", "LDX #$02", "A:00 X:00 Y:00 P:24 SP:FD CYC:7"),
        line(0xC002, "CA", "DEX", "A:00 X:02 Y:00 P:24 SP:FD CYC:9"),
        line(0xC003, "D0 FD", "BNE *-3", "A:00 X:01 Y:00 P:24 SP:FD CYC:11"),
        line(0xC002, "CA", "DEX", "A:00 X:01 Y:00 P:24 SP:FD CYC:14"),
        line(0xC003, "D0 FD", "BNE *-3", "A:00 X:00 Y:00 P:26 SP:FD CYC:16"),
    ];
    assert_eq!(trace, expected.join("\n") + "\n");
    assert_eq!(cpu.pc, 0xC005);
    assert_eq!(cpu.total_cycles, 18);
    assert_eq!(cpu.cycles, 0);
    assert!(!cpu.can_clock());
}

#[test]
fn traces_up_to_a_total_of_cycles() {
    let mut cpu = machine(&[0xA2, 0x02, 0xCA, 0xD0, 0xFD, 0x02]);
    let trace = cpu.run_trace(9);
    let expected = [
        line(0xC000, "A2 02", "LDX #$02", "A:00 X:00 Y:00 P:24 SP:FD CYC:7"),
        line(0xC002, "CA", "DEX", "A:00 X:02 Y:00 P:24 SP:FD CYC:9"),
    ];
    assert_eq!(trace, expected.join("\n") + "\n");
    assert_eq!(cpu.total_cycles, 10);
    assert_eq!(cpu.x, 1);
    // already past the last cycle: nothing happens
    assert_eq!(cpu.run_trace(9), "");
    assert_eq!(cpu.total_cycles, 10);
}

#[test]
fn a_jump_onto_itself_is_traced_once() {
    let mut cpu = machine(&[0x4C, 0x00, 0xC0]);
    let trace = cpu.run_trace(30);
    // the first line is written because the trace starts out with PC 0 as
    // the last one seen; after it PC never leaves $C000
    assert_eq!(
        trace,
        "C000  4C 00 C0  JMP $C000                       A:00 X:00 Y:00 P:24 SP:FD CYC:7\n"
    );
    assert_eq!(cpu.total_cycles, 31);
}
