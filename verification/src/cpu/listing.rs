//! Instructions as text, for program listings and trace lines: the
//! mnemonic, and the operand in the notation of its addressing mode.

use vstd::prelude::*;
use crate::cpu::opcode::{AddressingMode, DecodedOpcode, Instruction, opcode_matrix};
use crate::text::{hex_byte, hex_offset, push_char, push_hex_byte, push_hex_offset,
    push_signed_decimal, signed_decimal};

verus! {

impl Instruction {
    /// The three letters of the mnemonic.
    pub open spec fn name(self) -> Seq<char> {
        match self {
            Instruction::ADC => seq!['A', 'D', 'C'],
            Instruction::AND => seq!['A', 'N', 'D'],
            Instruction::ASL => seq!['A', 'S', 'L'],
            Instruction::BCC => seq!['B', 'C', 'C'],
            Instruction::BCS => seq!['B', 'C', 'S'],
            Instruction::BEQ => seq!['B', 'E', 'Q'],
            Instruction::BIT => seq!['B', 'I', 'T'],
            Instruction::BMI => seq!['B', 'M', 'I'],
            Instruction::BNE => seq!['B', 'N', 'E'],
            Instruction::BPL => seq!['B', 'P', 'L'],
            Instruction::BRK => seq!['B', 'R', 'K'],
            Instruction::BVC => seq!['B', 'V', 'C'],
            Instruction::BVS => seq!['B', 'V', 'S'],
            Instruction::CLC => seq!['C', 'L', 'C'],
            Instruction::CLD => seq!['C', 'L', 'D'],
            Instruction::CLI => seq!['C', 'L', 'I'],
            Instruction::CLV => seq!['C', 'L', 'V'],
            Instruction::CMP => seq!['C', 'M', 'P'],
            Instruction::CPX => seq!['C', 'P', 'X'],
            Instruction::CPY => seq!['C', 'P', 'Y'],
            Instruction::DEC => seq!['D', 'E', 'C'],
            Instruction::DEX => seq!['D', 'E', 'X'],
            Instruction::DEY => seq!['D', 'E', 'Y'],
            Instruction::EOR => seq!['E', 'O', 'R'],
            Instruction::INC => seq!['I', 'N', 'C'],
            Instruction::INX => seq!['I', 'N', 'X'],
            Instruction::INY => seq!['I', 'N', 'Y'],
            Instruction::JMP => seq!['J', 'M', 'P'],
            Instruction::JSR => seq!['J', 'S', 'R'],
            Instruction::LDA => seq!['L', 'D', 'A'],
            Instruction::LDX => seq!['L', 'D', 'X'],
            Instruction::LDY => seq!['L', 'D', 'Y'],
            Instruction::LSR => seq!['L', 'S', 'R'],
            Instruction::NOP => seq!['N', 'O', 'P'],
            Instruction::ORA => seq!['O', 'R', 'A'],
            Instruction::PHA => seq!['P', 'H', 'A'],
            Instruction::PHP => seq!['P', 'H', 'P'],
            Instruction::PLA => seq!['P', 'L', 'A'],
            Instruction::PLP => seq!['P', 'L', 'P'],
            Instruction::ROL => seq!['R', 'O', 'L'],
            Instruction::ROR => seq!['R', 'O', 'R'],
            Instruction::RTI => seq!['R', 'T', 'I'],
            Instruction::RTS => seq!['R', 'T', 'S'],
            Instruction::SBC => seq!['S', 'B', 'C'],
            Instruction::SEC => seq!['S', 'E', 'C'],
            Instruction::SED => seq!['S', 'E', 'D'],
            Instruction::SEI => seq!['S', 'E', 'I'],
            Instruction::STA => seq!['S', 'T', 'A'],
            Instruction::STX => seq!['S', 'T', 'X'],
            Instruction::STY => seq!['S', 'T', 'Y'],
            Instruction::TAX => seq!['T', 'A', 'X'],
            Instruction::TAY => seq!['T', 'A', 'Y'],
            Instruction::TSX => seq!['T', 'S', 'X'],
            Instruction::TXA => seq!['T', 'X', 'A'],
            Instruction::TXS => seq!['T', 'X', 'S'],
            Instruction::TYA => seq!['T', 'Y', 'A'],
            Instruction::ALR => seq!['A', 'L', 'R'],
            Instruction::ANC => seq!['A', 'N', 'C'],
            Instruction::ARR => seq!['A', 'R', 'R'],
            Instruction::AXS => seq!['A', 'X', 'S'],
            Instruction::LAX => seq!['L', 'A', 'X'],
            Instruction::SAX => seq!['S', 'A', 'X'],
            Instruction::DCP => seq!['D', 'C', 'P'],
            Instruction::ISC => seq!['I', 'S', 'C'],
            Instruction::RLA => seq!['R', 'L', 'A'],
            Instruction::RRA => seq!['R', 'R', 'A'],
            Instruction::SLO => seq!['S', 'L', 'O'],
            Instruction::SRE => seq!['S', 'R', 'E'],
            Instruction::UNK => seq!['U', 'N', 'K'],
        }
    }

    /// The three letters of the mnemonic.
    pub fn letters(&self) -> (letters: [char; 3])
        ensures
            letters@ == self.name(),
    {
        let letters: [char; 3] = match self {
            Instruction::ADC => ['A', 'D', 'C'],
            Instruction::AND => ['A', 'N', 'D'],
            Instruction::ASL => ['A', 'S', 'L'],
            Instruction::BCC => ['B', 'C', 'C'],
            Instruction::BCS => ['B', 'C', 'S'],
            Instruction::BEQ => ['B', 'E', 'Q'],
            Instruction::BIT => ['B', 'I', 'T'],
            Instruction::BMI => ['B', 'M', 'I'],
            Instruction::BNE => ['B', 'N', 'E'],
            Instruction::BPL => ['B', 'P', 'L'],
            Instruction::BRK => ['B', 'R', 'K'],
            Instruction::BVC => ['B', 'V', 'C'],
            Instruction::BVS => ['B', 'V', 'S'],
            Instruction::CLC => ['C', 'L', 'C'],
            Instruction::CLD => ['C', 'L', 'D'],
            Instruction::CLI => ['C', 'L', 'I'],
            Instruction::CLV => ['C', 'L', 'V'],
            Instruction::CMP => ['C', 'M', 'P'],
            Instruction::CPX => ['C', 'P', 'X'],
            Instruction::CPY => ['C', 'P', 'Y'],
            Instruction::DEC => ['D', 'E', 'C'],
            Instruction::DEX => ['D', 'E', 'X'],
            Instruction::DEY => ['D', 'E', 'Y'],
            Instruction::EOR => ['E', 'O', 'R'],
            Instruction::INC => ['I', 'N', 'C'],
            Instruction::INX => ['I', 'N', 'X'],
            Instruction::INY => ['I', 'N', 'Y'],
            Instruction::JMP => ['J', 'M', 'P'],
            Instruction::JSR => ['J', 'S', 'R'],
            Instruction::LDA => ['L', 'D', 'A'],
            Instruction::LDX => ['L', 'D', 'X'],
            Instruction::LDY => ['L', 'D', 'Y'],
            Instruction::LSR => ['L', 'S', 'R'],
            Instruction::NOP => ['N', 'O', 'P'],
            Instruction::ORA => ['O', 'R', 'A'],
            Instruction::PHA => ['P', 'H', 'A'],
            Instruction::PHP => ['P', 'H', 'P'],
            Instruction::PLA => ['P', 'L', 'A'],
            Instruction::PLP => ['P', 'L', 'P'],
            Instruction::ROL => ['R', 'O', 'L'],
            Instruction::ROR => ['R', 'O', 'R'],
            Instruction::RTI => ['R', 'T', 'I'],
            Instruction::RTS => ['R', 'T', 'S'],
            Instruction::SBC => ['S', 'B', 'C'],
            Instruction::SEC => ['S', 'E', 'C'],
            Instruction::SED => ['S', 'E', 'D'],
            Instruction::SEI => ['S', 'E', 'I'],
            Instruction::STA => ['S', 'T', 'A'],
            Instruction::STX => ['S', 'T', 'X'],
            Instruction::STY => ['S', 'T', 'Y'],
            Instruction::TAX => ['T', 'A', 'X'],
            Instruction::TAY => ['T', 'A', 'Y'],
            Instruction::TSX => ['T', 'S', 'X'],
            Instruction::TXA => ['T', 'X', 'A'],
            Instruction::TXS => ['T', 'X', 'S'],
            Instruction::TYA => ['T', 'Y', 'A'],
            Instruction::ALR => ['A', 'L', 'R'],
            Instruction::ANC => ['A', 'N', 'C'],
            Instruction::ARR => ['A', 'R', 'R'],
            Instruction::AXS => ['A', 'X', 'S'],
            Instruction::LAX => ['L', 'A', 'X'],
            Instruction::SAX => ['S', 'A', 'X'],
            Instruction::DCP => ['D', 'C', 'P'],
            Instruction::ISC => ['I', 'S', 'C'],
            Instruction::RLA => ['R', 'L', 'A'],
            Instruction::RRA => ['R', 'R', 'A'],
            Instruction::SLO => ['S', 'L', 'O'],
            Instruction::SRE => ['S', 'R', 'E'],
            Instruction::UNK => ['U', 'N', 'K'],
        };
        assert(letters@ =~= self.name());
        letters
    }

    /// The mnemonic as a string.
    pub fn to_string(&self) -> (mnemonic: String)
        ensures
            mnemonic@ == self.name(),
    {
        let mut mnemonic = String::new();
        push_mnemonic(&mut mnemonic, *self);
        mnemonic
    }
}

/// The operand bytes of an instruction as they stand in memory, in a field
/// of six characters: `"F5 C5 "`, `"F5    "`, or six spaces.
pub open spec fn operand_dump(mode: AddressingMode, first: u8, second: u8) -> Seq<char> {
    if mode.operand_bytes() == 0 {
        seq![' ', ' ', ' ', ' ', ' ', ' ']
    } else if mode.operand_bytes() == 1 {
        hex_byte(first) + seq![' ', ' ', ' ', ' ']
    } else {
        hex_byte(first) + seq![' '] + hex_byte(second) + seq![' ']
    }
}

/// The operand in the notation of its addressing mode, from the bytes
/// behind the opcode. A word is written high byte first; the distance of a
/// branch is written in decimal behind `*`.
pub open spec fn operand_text(mode: AddressingMode, first: u8, second: u8) -> Seq<char> {
    match mode {
        AddressingMode::Implied => Seq::empty(),
        AddressingMode::Accumulator => seq!['A'],
        AddressingMode::Immediate => seq!['#', '$'] + hex_byte(first),
        AddressingMode::ZeroPage => seq!['$'] + hex_byte(first),
        AddressingMode::IndexedZeroPageX => seq!['$'] + hex_byte(first) + seq![',', 'X'],
        AddressingMode::IndexedZeroPageY => seq!['$'] + hex_byte(first) + seq![',', 'Y'],
        AddressingMode::Relative => seq!['*'] + signed_decimal(first),
        AddressingMode::Absolute => seq!['$'] + hex_byte(second) + hex_byte(first),
        AddressingMode::IndexedAbsoluteX => seq!['$'] + hex_byte(second) + hex_byte(first)
            + seq![',', 'X'],
        AddressingMode::IndexedAbsoluteY => seq!['$'] + hex_byte(second) + hex_byte(first)
            + seq![',', 'Y'],
        AddressingMode::Indirect => seq!['$', '('] + hex_byte(second) + hex_byte(first)
            + seq![')'],
        AddressingMode::IndexedIndirect => seq!['(', '$'] + hex_byte(first) + seq![
            ',',
            ' ',
            'X',
            ')',
        ],
        AddressingMode::IndirectIndexed => seq!['(', '$'] + hex_byte(first) + seq![
            ')',
            ',',
            ' ',
            'Y',
        ],
    }
}

/// An instruction as text: the mnemonic and, unless the operand is
/// implied, a space and the operand.
pub open spec fn instruction_text(opcode: DecodedOpcode, first: u8, second: u8) -> Seq<char> {
    if opcode.mode == AddressingMode::Implied {
        opcode.instruction.name()
    } else {
        opcode.instruction.name() + seq![' '] + operand_text(opcode.mode, first, second)
    }
}

/// One line of a program listing: the offset of the opcode, the opcode
/// byte, the operand bytes, the instruction as text, and a line feed.
pub open spec fn listing_line(offset: nat, byte: u8, opcode: DecodedOpcode, first: u8, second: u8)
    -> Seq<char> {
    hex_offset(offset) + seq![' '] + hex_byte(byte) + seq![' '] + operand_dump(
        opcode.mode,
        first,
        second,
    ) + instruction_text(opcode, first, second) + seq!['\n']
}

/// What a byte is listed as: its entry in the opcode matrix or, for a byte
/// without one, `UNK` with no operand and no cycles.
pub open spec fn listed_opcode(byte: u8) -> DecodedOpcode {
    match opcode_matrix(byte) {
        Some(opcode) => opcode,
        None => DecodedOpcode {
            instruction: Instruction::UNK,
            mode: AddressingMode::Implied,
            cycles: 0,
        },
    }
}

pub fn push_mnemonic(out: &mut String, instruction: Instruction)
    ensures
        final(out)@ == old(out)@ + instruction.name(),
{
    let letters = instruction.letters();
    push_char(out, letters[0]);
    push_char(out, letters[1]);
    push_char(out, letters[2]);
    assert(out@ =~= old(out)@ + instruction.name());
}

pub fn push_operand_dump(out: &mut String, mode: AddressingMode, first: u8, second: u8)
    ensures
        final(out)@ == old(out)@ + operand_dump(mode, first, second),
{
    let count = mode.operand_length();
    if count == 0 {
        push_char(out, ' ');
        push_char(out, ' ');
    } else {
        push_hex_byte(out, first);
    }
    push_char(out, ' ');
    if count == 2 {
        push_hex_byte(out, second);
    } else {
        push_char(out, ' ');
        push_char(out, ' ');
    }
    push_char(out, ' ');
    assert(out@ =~= old(out)@ + operand_dump(mode, first, second));
}

pub fn push_operand_text(out: &mut String, mode: AddressingMode, first: u8, second: u8)
    ensures
        final(out)@ == old(out)@ + operand_text(mode, first, second),
{
    match mode {
        AddressingMode::Implied => {},
        AddressingMode::Accumulator => {
            push_char(out, 'A');
        },
        AddressingMode::Immediate => {
            push_char(out, '#');
            push_char(out, '$');
            push_hex_byte(out, first);
        },
        AddressingMode::ZeroPage => {
            push_char(out, '$');
            push_hex_byte(out, first);
        },
        AddressingMode::IndexedZeroPageX => {
            push_char(out, '$');
            push_hex_byte(out, first);
            push_char(out, ',');
            push_char(out, 'X');
        },
        AddressingMode::IndexedZeroPageY => {
            push_char(out, '$');
            push_hex_byte(out, first);
            push_char(out, ',');
            push_char(out, 'Y');
        },
        AddressingMode::Relative => {
            push_char(out, '*');
            push_signed_decimal(out, first);
        },
        AddressingMode::Absolute => {
            push_char(out, '$');
            push_hex_byte(out, second);
            push_hex_byte(out, first);
        },
        AddressingMode::IndexedAbsoluteX => {
            push_char(out, '$');
            push_hex_byte(out, second);
            push_hex_byte(out, first);
            push_char(out, ',');
            push_char(out, 'X');
        },
        AddressingMode::IndexedAbsoluteY => {
            push_char(out, '$');
            push_hex_byte(out, second);
            push_hex_byte(out, first);
            push_char(out, ',');
            push_char(out, 'Y');
        },
        AddressingMode::Indirect => {
            push_char(out, '$');
            push_char(out, '(');
            push_hex_byte(out, second);
            push_hex_byte(out, first);
            push_char(out, ')');
        },
        AddressingMode::IndexedIndirect => {
            push_char(out, '(');
            push_char(out, '$');
            push_hex_byte(out, first);
            push_char(out, ',');
            push_char(out, ' ');
            push_char(out, 'X');
            push_char(out, ')');
        },
        AddressingMode::IndirectIndexed => {
            push_char(out, '(');
            push_char(out, '$');
            push_hex_byte(out, first);
            push_char(out, ')');
            push_char(out, ',');
            push_char(out, ' ');
            push_char(out, 'Y');
        },
    }
    assert(out@ =~= old(out)@ + operand_text(mode, first, second));
}

pub fn push_instruction_text(out: &mut String, opcode: DecodedOpcode, first: u8, second: u8)
    ensures
        final(out)@ == old(out)@ + instruction_text(opcode, first, second),
{
    push_mnemonic(out, opcode.instruction);
    match opcode.mode {
        AddressingMode::Implied => {},
        _ => {
            push_char(out, ' ');
            push_operand_text(out, opcode.mode, first, second);
        },
    }
    assert(out@ =~= old(out)@ + instruction_text(opcode, first, second));
}

pub fn push_listing_line(
    out: &mut String,
    offset: usize,
    byte: u8,
    opcode: DecodedOpcode,
    first: u8,
    second: u8,
)
    ensures
        final(out)@ == old(out)@ + listing_line(offset as nat, byte, opcode, first, second),
{
    push_hex_offset(out, offset);
    push_char(out, ' ');
    push_hex_byte(out, byte);
    push_char(out, ' ');
    push_operand_dump(out, opcode.mode, first, second);
    push_instruction_text(out, opcode, first, second);
    push_char(out, '\n');
    assert(out@ =~= old(out)@ + listing_line(offset as nat, byte, opcode, first, second));
}

} // verus!
