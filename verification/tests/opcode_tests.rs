use nes6502::cpu::opcode::{AddressingMode, DecodeError, DecodedOpcode, Instruction, Opcode};

fn decoded(byte: u8) -> (Instruction, AddressingMode, u8) {
    match byte.decode() {
        Ok(DecodedOpcode { instruction, mode, cycles }) => (instruction, mode, cycles),
        Err(error) => panic!("{:?}", error),
    }
}

#[test]
fn decodes_the_load_accumulator_family() {
    assert_eq!(decoded(0xA9), (Instruction::LDA, AddressingMode::Immediate, 2));
    assert_eq!(decoded(0xA5), (Instruction::LDA, AddressingMode::ZeroPage, 3));
    assert_eq!(decoded(0xB5), (Instruction::LDA, AddressingMode::IndexedZeroPageX, 4));
    assert_eq!(decoded(0xAD), (Instruction::LDA, AddressingMode::Absolute, 4));
    assert_eq!(decoded(0xBD), (Instruction::LDA, AddressingMode::IndexedAbsoluteX, 4));
    assert_eq!(decoded(0xB9), (Instruction::LDA, AddressingMode::IndexedAbsoluteY, 4));
    assert_eq!(decoded(0xA1), (Instruction::LDA, AddressingMode::IndexedIndirect, 6));
    assert_eq!(decoded(0xB1), (Instruction::LDA, AddressingMode::IndirectIndexed, 5));
}

#[test]
fn decodes_stores_with_their_longer_indexed_forms() {
    assert_eq!(decoded(0x85), (Instruction::STA, AddressingMode::ZeroPage, 3));
    assert_eq!(decoded(0x9D), (Instruction::STA, AddressingMode::IndexedAbsoluteX, 5));
    assert_eq!(decoded(0x99), (Instruction::STA, AddressingMode::IndexedAbsoluteY, 5));
    assert_eq!(decoded(0x91), (Instruction::STA, AddressingMode::IndirectIndexed, 6));
    assert_eq!(decoded(0x96), (Instruction::STX, AddressingMode::IndexedZeroPageY, 4));
    assert_eq!(decoded(0x94), (Instruction::STY, AddressingMode::IndexedZeroPageX, 4));
}

#[test]
fn decodes_flow_of_control() {
    assert_eq!(decoded(0x00), (Instruction::BRK, AddressingMode::Implied, 7));
    assert_eq!(decoded(0x20), (Instruction::JSR, AddressingMode::Absolute, 6));
    assert_eq!(decoded(0x40), (Instruction::RTI, AddressingMode::Implied, 6));
    assert_eq!(decoded(0x60), (Instruction::RTS, AddressingMode::Implied, 6));
    assert_eq!(decoded(0x4C), (Instruction::JMP, AddressingMode::Absolute, 3));
    assert_eq!(decoded(0x6C), (Instruction::JMP, AddressingMode::Indirect, 5));
    assert_eq!(decoded(0x10), (Instruction::BPL, AddressingMode::Relative, 2));
    assert_eq!(decoded(0x30), (Instruction::BMI, AddressingMode::Relative, 2));
    assert_eq!(decoded(0x50), (Instruction::BVC, AddressingMode::Relative, 2));
    assert_eq!(decoded(0x70), (Instruction::BVS, AddressingMode::Relative, 2));
    assert_eq!(decoded(0x90), (Instruction::BCC, AddressingMode::Relative, 2));
    assert_eq!(decoded(0xB0), (Instruction::BCS, AddressingMode::Relative, 2));
    assert_eq!(decoded(0xD0), (Instruction::BNE, AddressingMode::Relative, 2));
    assert_eq!(decoded(0xF0), (Instruction::BEQ, AddressingMode::Relative, 2));
}

#[test]
fn decodes_shifts_and_memory_counters() {
    assert_eq!(decoded(0x0A), (Instruction::ASL, AddressingMode::Accumulator, 2));
    assert_eq!(decoded(0x06), (Instruction::ASL, AddressingMode::ZeroPage, 5));
    assert_eq!(decoded(0x5E), (Instruction::LSR, AddressingMode::IndexedAbsoluteX, 7));
    assert_eq!(decoded(0x2E), (Instruction::ROL, AddressingMode::Absolute, 6));
    assert_eq!(decoded(0x76), (Instruction::ROR, AddressingMode::IndexedZeroPageX, 6));
    assert_eq!(decoded(0xE6), (Instruction::INC, AddressingMode::ZeroPage, 5));
    assert_eq!(decoded(0xDE), (Instruction::DEC, AddressingMode::IndexedAbsoluteX, 7));
}

#[test]
fn decodes_the_stack_and_the_flags() {
    assert_eq!(decoded(0x48), (Instruction::PHA, AddressingMode::Implied, 3));
    assert_eq!(decoded(0x08), (Instruction::PHP, AddressingMode::Implied, 3));
    assert_eq!(decoded(0x68), (Instruction::PLA, AddressingMode::Implied, 4));
    assert_eq!(decoded(0x28), (Instruction::PLP, AddressingMode::Implied, 4));
    assert_eq!(decoded(0x18), (Instruction::CLC, AddressingMode::Implied, 2));
    assert_eq!(decoded(0x38), (Instruction::SEC, AddressingMode::Implied, 2));
    assert_eq!(decoded(0x58), (Instruction::CLI, AddressingMode::Implied, 2));
    assert_eq!(decoded(0x78), (Instruction::SEI, AddressingMode::Implied, 2));
    assert_eq!(decoded(0xB8), (Instruction::CLV, AddressingMode::Implied, 2));
    assert_eq!(decoded(0xD8), (Instruction::CLD, AddressingMode::Implied, 2));
    assert_eq!(decoded(0xF8), (Instruction::SED, AddressingMode::Implied, 2));
    assert_eq!(decoded(0x9A), (Instruction::TXS, AddressingMode::Implied, 2));
    assert_eq!(decoded(0xBA), (Instruction::TSX, AddressingMode::Implied, 2));
    assert_eq!(decoded(0xEA), (Instruction::NOP, AddressingMode::Implied, 2));
}

#[test]
fn decodes_the_undocumented_opcodes() {
    assert_eq!(decoded(0xA7), (Instruction::LAX, AddressingMode::ZeroPage, 3));
    assert_eq!(decoded(0xB7), (Instruction::LAX, AddressingMode::IndexedZeroPageY, 4));
    assert_eq!(decoded(0xBF), (Instruction::LAX, AddressingMode::IndexedAbsoluteY, 4));
    assert_eq!(decoded(0xB3), (Instruction::LAX, AddressingMode::IndirectIndexed, 5));
    assert_eq!(decoded(0x87), (Instruction::SAX, AddressingMode::ZeroPage, 3));
    assert_eq!(decoded(0x97), (Instruction::SAX, AddressingMode::IndexedZeroPageY, 4));
    assert_eq!(decoded(0x83), (Instruction::SAX, AddressingMode::IndexedIndirect, 6));
    assert_eq!(decoded(0xC7), (Instruction::DCP, AddressingMode::ZeroPage, 5));
    assert_eq!(decoded(0xC3), (Instruction::DCP, AddressingMode::IndexedIndirect, 8));
    assert_eq!(decoded(0xF3), (Instruction::ISC, AddressingMode::IndirectIndexed, 8));
    assert_eq!(decoded(0xFB), (Instruction::ISC, AddressingMode::IndexedAbsoluteY, 7));
    assert_eq!(decoded(0x2F), (Instruction::RLA, AddressingMode::Absolute, 6));
    assert_eq!(decoded(0x7F), (Instruction::RRA, AddressingMode::IndexedAbsoluteX, 7));
    assert_eq!(decoded(0x17), (Instruction::SLO, AddressingMode::IndexedZeroPageX, 6));
    assert_eq!(decoded(0x47), (Instruction::SRE, AddressingMode::ZeroPage, 5));
    assert_eq!(decoded(0x0B), (Instruction::ANC, AddressingMode::Immediate, 2));
    assert_eq!(decoded(0x2B), (Instruction::ANC, AddressingMode::Immediate, 2));
    assert_eq!(decoded(0x4B), (Instruction::ALR, AddressingMode::Immediate, 2));
    assert_eq!(decoded(0x6B), (Instruction::ARR, AddressingMode::Immediate, 2));
    assert_eq!(decoded(0xCB), (Instruction::AXS, AddressingMode::Immediate, 2));
    assert_eq!(decoded(0xEB), (Instruction::SBC, AddressingMode::Immediate, 2));
    assert_eq!(decoded(0x1A), (Instruction::NOP, AddressingMode::Implied, 2));
    assert_eq!(decoded(0x80), (Instruction::NOP, AddressingMode::Immediate, 2));
    assert_eq!(decoded(0x04), (Instruction::NOP, AddressingMode::ZeroPage, 3));
    assert_eq!(decoded(0x0C), (Instruction::NOP, AddressingMode::Absolute, 4));
    assert_eq!(decoded(0x14), (Instruction::NOP, AddressingMode::IndexedZeroPageX, 4));
    assert_eq!(decoded(0xFC), (Instruction::NOP, AddressingMode::IndexedAbsoluteX, 4));
}

#[test]
fn refuses_a_byte_that_is_no_opcode() {
    for byte in [0x02u8, 0x12, 0x22, 0x32, 0x42, 0x52, 0x62, 0x72, 0x92, 0xB2, 0xD2, 0xF2, 0x82,
        0x89, 0xC2, 0xE2, 0x8B, 0xAB, 0x93, 0x9B, 0x9C, 0x9E, 0x9F, 0xBB]
    {
        assert_eq!(byte.decode(), Err(DecodeError::IllegalUnimplementedOpcode { opcode: byte }));
    }
}

#[test]
fn decodes_every_documented_opcode_and_no_unknown() {
    let mut documented = 0;
    let mut decodable = 0;
    for byte in 0..=255u8 {
        if let Ok(opcode) = byte.decode() {
            decodable += 1;
            assert_ne!(opcode.instruction, Instruction::UNK);
            assert!(2 <= opcode.cycles && opcode.cycles <= 8);
            let undocumented = matches!(
                opcode.instruction,
                Instruction::ALR
                    | Instruction::ANC
                    | Instruction::ARR
                    | Instruction::AXS
                    | Instruction::LAX
                    | Instruction::SAX
                    | Instruction::DCP
                    | Instruction::ISC
                    | Instruction::RLA
                    | Instruction::RRA
                    | Instruction::SLO
                    | Instruction::SRE
            );
            if !undocumented {
                assert!(opcode.cycles <= 7);
                documented += 1;
            }
        }
    }
    // 151 documented opcodes, and 24 further encodings of NOP and SBC
    assert_eq!(documented, 151 + 24);
    assert_eq!(decodable, 232);
}

#[test]
fn counts_the_operand_bytes_of_every_mode() {
    assert_eq!(AddressingMode::Implied.operand_length(), 0);
    assert_eq!(AddressingMode::Accumulator.operand_length(), 0);
    assert_eq!(AddressingMode::Immediate.operand_length(), 1);
    assert_eq!(AddressingMode::Relative.operand_length(), 1);
    assert_eq!(AddressingMode::ZeroPage.operand_length(), 1);
    assert_eq!(AddressingMode::IndexedZeroPageX.operand_length(), 1);
    assert_eq!(AddressingMode::IndexedZeroPageY.operand_length(), 1);
    assert_eq!(AddressingMode::IndexedIndirect.operand_length(), 1);
    assert_eq!(AddressingMode::IndirectIndexed.operand_length(), 1);
    assert_eq!(AddressingMode::Absolute.operand_length(), 2);
    assert_eq!(AddressingMode::IndexedAbsoluteX.operand_length(), 2);
    assert_eq!(AddressingMode::IndexedAbsoluteY.operand_length(), 2);
    assert_eq!(AddressingMode::Indirect.operand_length(), 2);
}

#[test]
fn knows_which_instructions_have_no_behaviour() {
    assert!(Instruction::LDA.can_execute());
    assert!(Instruction::SRE.can_execute());
    assert!(!Instruction::ALR.can_execute());
    assert!(!Instruction::ANC.can_execute());
    assert!(!Instruction::ARR.can_execute());
    assert!(!Instruction::AXS.can_execute());
    assert!(!Instruction::UNK.can_execute());
}

#[test]
fn names_an_instruction_by_its_mnemonic() {
    assert_eq!(Instruction::ADC.to_string(), "ADC");
    assert_eq!(Instruction::JSR.to_string(), "JSR");
    assert_eq!(Instruction::SRE.to_string(), "SRE");
    assert_eq!(Instruction::UNK.to_string(), "UNK");
    assert_eq!(Instruction::TYA.letters(), ['T', 'Y', 'A']);
}
