//! The instruction set: mnemonics, addressing modes and the opcode matrix.
//!
//! An opcode byte is read as three fields, `rrrcccgg`: a group (the low two
//! bits), a column (the next three) and a row (the high three). Within a
//! group the row mostly selects the operation and the column the addressing
//! mode, which is how [`opcode_matrix`] states the encoding. The executable
//! decoder is a flat lookup that is proved equal to it for every byte.

use vstd::prelude::*;

verus! {

/// The operations of the processor. The first fifty-six are the documented
/// ones; `ALR` to `SRE` are undocumented; `UNK` stands for a byte without a
/// meaning and is only ever produced while listing a program.
#[derive(Clone, Copy, Debug, PartialEq, Eq, Structural)]
pub enum Instruction {
    ADC, AND, ASL, BCC, BCS, BEQ, BIT, BMI, BNE, BPL, BRK, BVC, BVS, CLC,
    CLD, CLI, CLV, CMP, CPX, CPY, DEC, DEX, DEY, EOR, INC, INX, INY, JMP,
    JSR, LDA, LDX, LDY, LSR, NOP, ORA, PHA, PHP, PLA, PLP, ROL, ROR, RTI,
    RTS, SBC, SEC, SED, SEI, STA, STX, STY, TAX, TAY, TSX, TXA, TXS, TYA,
    ALR, ANC, ARR, AXS, LAX, SAX, DCP, ISC, RLA, RRA, SLO, SRE,
    UNK,
}

/// How an instruction finds its operand.
#[derive(Clone, Copy, Debug, PartialEq, Eq, Structural)]
pub enum AddressingMode {
    /// `$nn`: an address in the first page.
    ZeroPage,
    /// `$nn,X`: a first-page address plus X, staying in the first page.
    IndexedZeroPageX,
    /// `$nn,Y`: a first-page address plus Y, staying in the first page.
    IndexedZeroPageY,
    /// `$nnnn`: a full address.
    Absolute,
    /// `$nnnn,X`: a full address plus X.
    IndexedAbsoluteX,
    /// `$nnnn,Y`: a full address plus Y.
    IndexedAbsoluteY,
    /// `($nnnn)`: the address stored at a full address.
    Indirect,
    /// No operand.
    Implied,
    /// The accumulator is the operand.
    Accumulator,
    /// `#$nn`: the operand is the byte itself.
    Immediate,
    /// A signed distance from the next instruction.
    Relative,
    /// `($nn,X)`: the address stored in the first page at `nn + X`.
    IndexedIndirect,
    /// `($nn),Y`: the address stored in the first page at `nn`, plus Y.
    IndirectIndexed,
}

/// What one opcode byte stands for.
#[derive(Clone, Copy, Debug, PartialEq, Eq, Structural)]
pub struct DecodedOpcode {
    pub instruction: Instruction,
    pub mode: AddressingMode,
    /// Cycles the instruction takes before any penalty.
    pub cycles: u8,
}

/// Why a byte could not be decoded.
#[derive(Clone, Copy, Debug, PartialEq, Eq, Structural)]
pub enum DecodeError {
    /// The byte is not in the opcode matrix.
    IllegalUnimplementedOpcode { opcode: u8 },
}

impl AddressingMode {
    /// Number of bytes that follow the opcode byte.
    pub open spec fn operand_bytes(self) -> nat {
        match self {
            AddressingMode::Implied | AddressingMode::Accumulator => 0,
            AddressingMode::Absolute
            | AddressingMode::IndexedAbsoluteX
            | AddressingMode::IndexedAbsoluteY
            | AddressingMode::Indirect => 2,
            _ => 1,
        }
    }

    /// Number of bytes that follow the opcode byte.
    pub fn operand_length(&self) -> (n: u8)
        ensures
            n == self.operand_bytes(),
    {
        match self {
            AddressingMode::Implied | AddressingMode::Accumulator => 0,
            AddressingMode::Absolute
            | AddressingMode::IndexedAbsoluteX
            | AddressingMode::IndexedAbsoluteY
            | AddressingMode::Indirect => 2,
            _ => 1,
        }
    }

    /// Whether the mode adds an index register to a full address, which is
    /// where a page can be crossed.
    pub open spec fn is_indexed(self) -> bool {
        self == AddressingMode::IndexedAbsoluteX || self == AddressingMode::IndexedAbsoluteY
            || self == AddressingMode::IndirectIndexed
    }
}

impl Instruction {
    /// Whether this is one of the fifty-six documented operations.
    pub open spec fn is_official(self) -> bool {
        !self.is_unofficial() && self != Instruction::UNK
    }

    /// Whether this is one of the undocumented operations.
    pub open spec fn is_unofficial(self) -> bool {
        match self {
            Instruction::ALR
            | Instruction::ANC
            | Instruction::ARR
            | Instruction::AXS
            | Instruction::LAX
            | Instruction::SAX
            | Instruction::DCP
            | Instruction::ISC
            | Instruction::RLA
            | Instruction::RRA
            | Instruction::SLO
            | Instruction::SRE => true,
            _ => false,
        }
    }

    /// Whether the processor can carry the operation out. `ALR`, `ANC`,
    /// `ARR` and `AXS` are decoded but have no behaviour, and `UNK` is no
    /// operation at all.
    pub open spec fn is_executable(self) -> bool {
        match self {
            Instruction::ALR
            | Instruction::ANC
            | Instruction::ARR
            | Instruction::AXS
            | Instruction::UNK => false,
            _ => true,
        }
    }

    /// Whether the processor can carry the operation out.
    pub fn can_execute(&self) -> (b: bool)
        ensures
            b == self.is_executable(),
    {
        match self {
            Instruction::ALR
            | Instruction::ANC
            | Instruction::ARR
            | Instruction::AXS
            | Instruction::UNK => false,
            _ => true,
        }
    }
}

/// Cycles of an instruction that only reads its operand.
pub open spec fn read_cycles(mode: AddressingMode) -> u8 {
    match mode {
        AddressingMode::ZeroPage => 3,
        AddressingMode::IndexedZeroPageX | AddressingMode::IndexedZeroPageY => 4,
        AddressingMode::Absolute => 4,
        AddressingMode::IndexedAbsoluteX | AddressingMode::IndexedAbsoluteY => 4,
        AddressingMode::IndexedIndirect => 6,
        AddressingMode::IndirectIndexed => 5,
        _ => 2,
    }
}

/// Cycles of an instruction that only writes its operand.
pub open spec fn write_cycles(mode: AddressingMode) -> u8 {
    match mode {
        AddressingMode::ZeroPage => 3,
        AddressingMode::IndexedZeroPageX | AddressingMode::IndexedZeroPageY => 4,
        AddressingMode::Absolute => 4,
        AddressingMode::IndexedAbsoluteX | AddressingMode::IndexedAbsoluteY => 5,
        _ => 6,
    }
}

/// Cycles of an instruction that reads its operand, changes it and writes it
/// back.
pub open spec fn modify_cycles(mode: AddressingMode) -> u8 {
    match mode {
        AddressingMode::ZeroPage => 5,
        AddressingMode::IndexedZeroPageX | AddressingMode::IndexedZeroPageY => 6,
        AddressingMode::Absolute => 6,
        AddressingMode::IndexedAbsoluteX | AddressingMode::IndexedAbsoluteY => 7,
        AddressingMode::IndexedIndirect | AddressingMode::IndirectIndexed => 8,
        _ => 2,
    }
}

/// The addressing mode that a column selects in the groups 1 and 3.
pub open spec fn column_mode(column: int) -> AddressingMode {
    if column == 0 {
        AddressingMode::IndexedIndirect
    } else if column == 1 {
        AddressingMode::ZeroPage
    } else if column == 2 {
        AddressingMode::Immediate
    } else if column == 3 {
        AddressingMode::Absolute
    } else if column == 4 {
        AddressingMode::IndirectIndexed
    } else if column == 5 {
        AddressingMode::IndexedZeroPageX
    } else if column == 6 {
        AddressingMode::IndexedAbsoluteY
    } else {
        AddressingMode::IndexedAbsoluteX
    }
}

/// `column_mode` for the operations that involve X, which index by Y instead.
pub open spec fn column_mode_by_y(column: int) -> AddressingMode {
    if column == 5 {
        AddressingMode::IndexedZeroPageY
    } else if column == 7 {
        AddressingMode::IndexedAbsoluteY
    } else {
        column_mode(column)
    }
}

pub open spec fn entry(instruction: Instruction, mode: AddressingMode, cycles: u8) -> Option<
    DecodedOpcode,
> {
    Some(DecodedOpcode { instruction, mode, cycles })
}

/// Group 0: flow of control, the flags, the stack and the operations on Y.
pub open spec fn control_group(row: int, column: int) -> Option<DecodedOpcode> {
    if column == 0 {
        if row == 0 {
            entry(Instruction::BRK, AddressingMode::Implied, 7)
        } else if row == 1 {
            entry(Instruction::JSR, AddressingMode::Absolute, 6)
        } else if row == 2 {
            entry(Instruction::RTI, AddressingMode::Implied, 6)
        } else if row == 3 {
            entry(Instruction::RTS, AddressingMode::Implied, 6)
        } else if row == 4 {
            entry(Instruction::NOP, AddressingMode::Immediate, 2)
        } else if row == 5 {
            entry(Instruction::LDY, AddressingMode::Immediate, 2)
        } else if row == 6 {
            entry(Instruction::CPY, AddressingMode::Immediate, 2)
        } else {
            entry(Instruction::CPX, AddressingMode::Immediate, 2)
        }
    } else if column == 1 || column == 3 {
        let mode = if column == 3 && row == 3 {
            AddressingMode::Indirect
        } else {
            column_mode(column)
        };
        if row == 1 {
            entry(Instruction::BIT, mode, read_cycles(mode))
        } else if row == 4 {
            entry(Instruction::STY, mode, write_cycles(mode))
        } else if row == 5 {
            entry(Instruction::LDY, mode, read_cycles(mode))
        } else if row == 6 {
            entry(Instruction::CPY, mode, read_cycles(mode))
        } else if row == 7 {
            entry(Instruction::CPX, mode, read_cycles(mode))
        } else if column == 3 && row == 2 {
            entry(Instruction::JMP, mode, 3)
        } else if column == 3 && row == 3 {
            entry(Instruction::JMP, mode, 5)
        } else {
            entry(Instruction::NOP, mode, read_cycles(mode))
        }
    } else if column == 2 {
        if row == 0 {
            entry(Instruction::PHP, AddressingMode::Implied, 3)
        } else if row == 1 {
            entry(Instruction::PLP, AddressingMode::Implied, 4)
        } else if row == 2 {
            entry(Instruction::PHA, AddressingMode::Implied, 3)
        } else if row == 3 {
            entry(Instruction::PLA, AddressingMode::Implied, 4)
        } else if row == 4 {
            entry(Instruction::DEY, AddressingMode::Implied, 2)
        } else if row == 5 {
            entry(Instruction::TAY, AddressingMode::Implied, 2)
        } else if row == 6 {
            entry(Instruction::INY, AddressingMode::Implied, 2)
        } else {
            entry(Instruction::INX, AddressingMode::Implied, 2)
        }
    } else if column == 4 {
        let branch = if row == 0 {
            Instruction::BPL
        } else if row == 1 {
            Instruction::BMI
        } else if row == 2 {
            Instruction::BVC
        } else if row == 3 {
            Instruction::BVS
        } else if row == 4 {
            Instruction::BCC
        } else if row == 5 {
            Instruction::BCS
        } else if row == 6 {
            Instruction::BNE
        } else {
            Instruction::BEQ
        };
        entry(branch, AddressingMode::Relative, 2)
    } else if column == 6 {
        let flag = if row == 0 {
            Instruction::CLC
        } else if row == 1 {
            Instruction::SEC
        } else if row == 2 {
            Instruction::CLI
        } else if row == 3 {
            Instruction::SEI
        } else if row == 4 {
            Instruction::TYA
        } else if row == 5 {
            Instruction::CLV
        } else if row == 6 {
            Instruction::CLD
        } else {
            Instruction::SED
        };
        entry(flag, AddressingMode::Implied, 2)
    } else {
        // the two indexed columns
        let mode = column_mode(column);
        if row == 5 {
            entry(Instruction::LDY, mode, 4)
        } else if row == 4 {
            if column == 5 {
                entry(Instruction::STY, mode, 4)
            } else {
                None
            }
        } else {
            entry(Instruction::NOP, mode, 4)
        }
    }
}

/// Group 1: the operations on the accumulator.
pub open spec fn accumulator_group(row: int, column: int) -> Option<DecodedOpcode> {
    let mode = column_mode(column);
    if row == 4 {
        if column == 2 {
            None
        } else {
            entry(Instruction::STA, mode, write_cycles(mode))
        }
    } else {
        let instruction = if row == 0 {
            Instruction::ORA
        } else if row == 1 {
            Instruction::AND
        } else if row == 2 {
            Instruction::EOR
        } else if row == 3 {
            Instruction::ADC
        } else if row == 5 {
            Instruction::LDA
        } else if row == 6 {
            Instruction::CMP
        } else {
            Instruction::SBC
        };
        entry(instruction, mode, read_cycles(mode))
    }
}

/// The operation that a row selects in group 2.
pub open spec fn shift_row(row: int) -> Instruction {
    if row == 0 {
        Instruction::ASL
    } else if row == 1 {
        Instruction::ROL
    } else if row == 2 {
        Instruction::LSR
    } else if row == 3 {
        Instruction::ROR
    } else if row == 4 {
        Instruction::STX
    } else if row == 5 {
        Instruction::LDX
    } else if row == 6 {
        Instruction::DEC
    } else {
        Instruction::INC
    }
}

/// Group 2: shifts, rotations, memory counters and the operations on X.
pub open spec fn shift_group(row: int, column: int) -> Option<DecodedOpcode> {
    if column == 0 {
        if row == 5 {
            entry(Instruction::LDX, AddressingMode::Immediate, 2)
        } else {
            None
        }
    } else if column == 4 {
        None
    } else if column == 2 {
        if row < 4 {
            entry(shift_row(row), AddressingMode::Accumulator, 2)
        } else if row == 4 {
            entry(Instruction::TXA, AddressingMode::Implied, 2)
        } else if row == 5 {
            entry(Instruction::TAX, AddressingMode::Implied, 2)
        } else if row == 6 {
            entry(Instruction::DEX, AddressingMode::Implied, 2)
        } else {
            entry(Instruction::NOP, AddressingMode::Implied, 2)
        }
    } else if column == 6 {
        if row == 4 {
            entry(Instruction::TXS, AddressingMode::Implied, 2)
        } else if row == 5 {
            entry(Instruction::TSX, AddressingMode::Implied, 2)
        } else {
            entry(Instruction::NOP, AddressingMode::Implied, 2)
        }
    } else if row == 4 {
        let mode = column_mode_by_y(column);
        if column == 7 {
            None
        } else {
            entry(Instruction::STX, mode, write_cycles(mode))
        }
    } else if row == 5 {
        let mode = column_mode_by_y(column);
        entry(Instruction::LDX, mode, read_cycles(mode))
    } else {
        let mode = column_mode(column);
        entry(shift_row(row), mode, modify_cycles(mode))
    }
}

/// Group 3: the undocumented operations, each the pair of its neighbours in
/// the groups 1 and 2.
pub open spec fn combined_group(row: int, column: int) -> Option<DecodedOpcode> {
    if column == 2 {
        if row == 0 || row == 1 {
            entry(Instruction::ANC, AddressingMode::Immediate, 2)
        } else if row == 2 {
            entry(Instruction::ALR, AddressingMode::Immediate, 2)
        } else if row == 3 {
            entry(Instruction::ARR, AddressingMode::Immediate, 2)
        } else if row == 6 {
            entry(Instruction::AXS, AddressingMode::Immediate, 2)
        } else if row == 7 {
            entry(Instruction::SBC, AddressingMode::Immediate, 2)
        } else {
            None
        }
    } else if row == 4 {
        let mode = column_mode_by_y(column);
        if column == 4 || column == 6 || column == 7 {
            None
        } else {
            entry(Instruction::SAX, mode, write_cycles(mode))
        }
    } else if row == 5 {
        let mode = column_mode_by_y(column);
        if column == 6 {
            None
        } else {
            entry(Instruction::LAX, mode, read_cycles(mode))
        }
    } else {
        let mode = column_mode(column);
        let instruction = if row == 0 {
            Instruction::SLO
        } else if row == 1 {
            Instruction::RLA
        } else if row == 2 {
            Instruction::SRE
        } else if row == 3 {
            Instruction::RRA
        } else if row == 6 {
            Instruction::DCP
        } else {
            Instruction::ISC
        };
        entry(instruction, mode, modify_cycles(mode))
    }
}

/// What an opcode byte stands for, or `None` for a byte without a meaning.
pub open spec fn opcode_matrix(byte: u8) -> Option<DecodedOpcode> {
    let row = byte as int / 32;
    let column = (byte as int / 4) % 8;
    let group = byte as int % 4;
    if group == 0 {
        control_group(row, column)
    } else if group == 1 {
        accumulator_group(row, column)
    } else if group == 2 {
        shift_group(row, column)
    } else {
        combined_group(row, column)
    }
}

/// The outcome of decoding a byte: its entry in the matrix, or the error
/// that carries the byte.
pub open spec fn decoding(byte: u8) -> Result<DecodedOpcode, DecodeError> {
    match opcode_matrix(byte) {
        Some(opcode) => Ok(opcode),
        None => Err(DecodeError::IllegalUnimplementedOpcode { opcode: byte }),
    }
}

/// Every opcode takes between two and eight base cycles, and a documented
/// one at most seven. No byte decodes to `UNK`.
pub proof fn lemma_matrix_bounds(byte: u8)
    ensures
        opcode_matrix(byte) matches Some(opcode) ==> {
            &&& 2 <= opcode.cycles <= 8
            &&& opcode.instruction.is_official() ==> opcode.cycles <= 7
            &&& opcode.instruction != Instruction::UNK
        },
{
}

/// A byte that may be an opcode.
pub trait Opcode {
    /// The outcome that `decode` must give.
    spec fn decoded(&self) -> Result<DecodedOpcode, DecodeError>;

    /// Operation, addressing mode and base cycles of the opcode, or an error
    /// for a byte that stands for none.
    fn decode(&self) -> (result: Result<DecodedOpcode, DecodeError>)
        ensures
            result == self.decoded(),
    ;
}

fn known(instruction: Instruction, mode: AddressingMode, cycles: u8) -> (result: Result<
    DecodedOpcode,
    DecodeError,
>)
    ensures
        result == Ok::<DecodedOpcode, DecodeError>(DecodedOpcode { instruction, mode, cycles }),
{
    Ok(DecodedOpcode { instruction, mode, cycles })
}

impl Opcode for u8 {
    open spec fn decoded(&self) -> Result<DecodedOpcode, DecodeError> {
        decoding(*self)
    }

    fn decode(&self) -> (result: Result<DecodedOpcode, DecodeError>) {
        lookup(*self)
    }
}

/// The flat table behind `decode`, one row of the matrix at a time.
fn lookup(byte: u8) -> (result: Result<DecodedOpcode, DecodeError>)
    ensures
        result == decoding(byte),
{
    if byte < 0x20 {
        lookup_row_0(byte)
    } else if byte < 0x40 {
        lookup_row_1(byte)
    } else if byte < 0x60 {
        lookup_row_2(byte)
    } else if byte < 0x80 {
        lookup_row_3(byte)
    } else if byte < 0xA0 {
        lookup_row_4(byte)
    } else if byte < 0xC0 {
        lookup_row_5(byte)
    } else if byte < 0xE0 {
        lookup_row_6(byte)
    } else {
        lookup_row_7(byte)
    }
}

fn lookup_row_0(byte: u8) -> (result: Result<DecodedOpcode, DecodeError>)
    requires
        byte / 32 == 0,
    ensures
        result == decoding(byte),
{
    match byte {
        0x00 => known(Instruction::BRK, AddressingMode::Implied, 7),
        0x01 => known(Instruction::ORA, AddressingMode::IndexedIndirect, 6),
        0x03 => known(Instruction::SLO, AddressingMode::IndexedIndirect, 8),
        0x04 => known(Instruction::NOP, AddressingMode::ZeroPage, 3),
        0x05 => known(Instruction::ORA, AddressingMode::ZeroPage, 3),
        0x06 => known(Instruction::ASL, AddressingMode::ZeroPage, 5),
        0x07 => known(Instruction::SLO, AddressingMode::ZeroPage, 5),
        0x08 => known(Instruction::PHP, AddressingMode::Implied, 3),
        0x09 => known(Instruction::ORA, AddressingMode::Immediate, 2),
        0x0A => known(Instruction::ASL, AddressingMode::Accumulator, 2),
        0x0B => known(Instruction::ANC, AddressingMode::Immediate, 2),
        0x0C => known(Instruction::NOP, AddressingMode::Absolute, 4),
        0x0D => known(Instruction::ORA, AddressingMode::Absolute, 4),
        0x0E => known(Instruction::ASL, AddressingMode::Absolute, 6),
        0x0F => known(Instruction::SLO, AddressingMode::Absolute, 6),
        0x10 => known(Instruction::BPL, AddressingMode::Relative, 2),
        0x11 => known(Instruction::ORA, AddressingMode::IndirectIndexed, 5),
        0x13 => known(Instruction::SLO, AddressingMode::IndirectIndexed, 8),
        0x14 => known(Instruction::NOP, AddressingMode::IndexedZeroPageX, 4),
        0x15 => known(Instruction::ORA, AddressingMode::IndexedZeroPageX, 4),
        0x16 => known(Instruction::ASL, AddressingMode::IndexedZeroPageX, 6),
        0x17 => known(Instruction::SLO, AddressingMode::IndexedZeroPageX, 6),
        0x18 => known(Instruction::CLC, AddressingMode::Implied, 2),
        0x19 => known(Instruction::ORA, AddressingMode::IndexedAbsoluteY, 4),
        0x1A => known(Instruction::NOP, AddressingMode::Implied, 2),
        0x1B => known(Instruction::SLO, AddressingMode::IndexedAbsoluteY, 7),
        0x1C => known(Instruction::NOP, AddressingMode::IndexedAbsoluteX, 4),
        0x1D => known(Instruction::ORA, AddressingMode::IndexedAbsoluteX, 4),
        0x1E => known(Instruction::ASL, AddressingMode::IndexedAbsoluteX, 7),
        0x1F => known(Instruction::SLO, AddressingMode::IndexedAbsoluteX, 7),
        _ => Err(DecodeError::IllegalUnimplementedOpcode { opcode: byte }),
    }
}

fn lookup_row_1(byte: u8) -> (result: Result<DecodedOpcode, DecodeError>)
    requires
        byte / 32 == 1,
    ensures
        result == decoding(byte),
{
    match byte {
        0x20 => known(Instruction::JSR, AddressingMode::Absolute, 6),
        0x21 => known(Instruction::AND, AddressingMode::IndexedIndirect, 6),
        0x23 => known(Instruction::RLA, AddressingMode::IndexedIndirect, 8),
        0x24 => known(Instruction::BIT, AddressingMode::ZeroPage, 3),
        0x25 => known(Instruction::AND, AddressingMode::ZeroPage, 3),
        0x26 => known(Instruction::ROL, AddressingMode::ZeroPage, 5),
        0x27 => known(Instruction::RLA, AddressingMode::ZeroPage, 5),
        0x28 => known(Instruction::PLP, AddressingMode::Implied, 4),
        0x29 => known(Instruction::AND, AddressingMode::Immediate, 2),
        0x2A => known(Instruction::ROL, AddressingMode::Accumulator, 2),
        0x2B => known(Instruction::ANC, AddressingMode::Immediate, 2),
        0x2C => known(Instruction::BIT, AddressingMode::Absolute, 4),
        0x2D => known(Instruction::AND, AddressingMode::Absolute, 4),
        0x2E => known(Instruction::ROL, AddressingMode::Absolute, 6),
        0x2F => known(Instruction::RLA, AddressingMode::Absolute, 6),
        0x30 => known(Instruction::BMI, AddressingMode::Relative, 2),
        0x31 => known(Instruction::AND, AddressingMode::IndirectIndexed, 5),
        0x33 => known(Instruction::RLA, AddressingMode::IndirectIndexed, 8),
        0x34 => known(Instruction::NOP, AddressingMode::IndexedZeroPageX, 4),
        0x35 => known(Instruction::AND, AddressingMode::IndexedZeroPageX, 4),
        0x36 => known(Instruction::ROL, AddressingMode::IndexedZeroPageX, 6),
        0x37 => known(Instruction::RLA, AddressingMode::IndexedZeroPageX, 6),
        0x38 => known(Instruction::SEC, AddressingMode::Implied, 2),
        0x39 => known(Instruction::AND, AddressingMode::IndexedAbsoluteY, 4),
        0x3A => known(Instruction::NOP, AddressingMode::Implied, 2),
        0x3B => known(Instruction::RLA, AddressingMode::IndexedAbsoluteY, 7),
        0x3C => known(Instruction::NOP, AddressingMode::IndexedAbsoluteX, 4),
        0x3D => known(Instruction::AND, AddressingMode::IndexedAbsoluteX, 4),
        0x3E => known(Instruction::ROL, AddressingMode::IndexedAbsoluteX, 7),
        0x3F => known(Instruction::RLA, AddressingMode::IndexedAbsoluteX, 7),
        _ => Err(DecodeError::IllegalUnimplementedOpcode { opcode: byte }),
    }
}

fn lookup_row_2(byte: u8) -> (result: Result<DecodedOpcode, DecodeError>)
    requires
        byte / 32 == 2,
    ensures
        result == decoding(byte),
{
    match byte {
        0x40 => known(Instruction::RTI, AddressingMode::Implied, 6),
        0x41 => known(Instruction::EOR, AddressingMode::IndexedIndirect, 6),
        0x43 => known(Instruction::SRE, AddressingMode::IndexedIndirect, 8),
        0x44 => known(Instruction::NOP, AddressingMode::ZeroPage, 3),
        0x45 => known(Instruction::EOR, AddressingMode::ZeroPage, 3),
        0x46 => known(Instruction::LSR, AddressingMode::ZeroPage, 5),
        0x47 => known(Instruction::SRE, AddressingMode::ZeroPage, 5),
        0x48 => known(Instruction::PHA, AddressingMode::Implied, 3),
        0x49 => known(Instruction::EOR, AddressingMode::Immediate, 2),
        0x4A => known(Instruction::LSR, AddressingMode::Accumulator, 2),
        0x4B => known(Instruction::ALR, AddressingMode::Immediate, 2),
        0x4C => known(Instruction::JMP, AddressingMode::Absolute, 3),
        0x4D => known(Instruction::EOR, AddressingMode::Absolute, 4),
        0x4E => known(Instruction::LSR, AddressingMode::Absolute, 6),
        0x4F => known(Instruction::SRE, AddressingMode::Absolute, 6),
        0x50 => known(Instruction::BVC, AddressingMode::Relative, 2),
        0x51 => known(Instruction::EOR, AddressingMode::IndirectIndexed, 5),
        0x53 => known(Instruction::SRE, AddressingMode::IndirectIndexed, 8),
        0x54 => known(Instruction::NOP, AddressingMode::IndexedZeroPageX, 4),
        0x55 => known(Instruction::EOR, AddressingMode::IndexedZeroPageX, 4),
        0x56 => known(Instruction::LSR, AddressingMode::IndexedZeroPageX, 6),
        0x57 => known(Instruction::SRE, AddressingMode::IndexedZeroPageX, 6),
        0x58 => known(Instruction::CLI, AddressingMode::Implied, 2),
        0x59 => known(Instruction::EOR, AddressingMode::IndexedAbsoluteY, 4),
        0x5A => known(Instruction::NOP, AddressingMode::Implied, 2),
        0x5B => known(Instruction::SRE, AddressingMode::IndexedAbsoluteY, 7),
        0x5C => known(Instruction::NOP, AddressingMode::IndexedAbsoluteX, 4),
        0x5D => known(Instruction::EOR, AddressingMode::IndexedAbsoluteX, 4),
        0x5E => known(Instruction::LSR, AddressingMode::IndexedAbsoluteX, 7),
        0x5F => known(Instruction::SRE, AddressingMode::IndexedAbsoluteX, 7),
        _ => Err(DecodeError::IllegalUnimplementedOpcode { opcode: byte }),
    }
}

fn lookup_row_3(byte: u8) -> (result: Result<DecodedOpcode, DecodeError>)
    requires
        byte / 32 == 3,
    ensures
        result == decoding(byte),
{
    match byte {
        0x60 => known(Instruction::RTS, AddressingMode::Implied, 6),
        0x61 => known(Instruction::ADC, AddressingMode::IndexedIndirect, 6),
        0x63 => known(Instruction::RRA, AddressingMode::IndexedIndirect, 8),
        0x64 => known(Instruction::NOP, AddressingMode::ZeroPage, 3),
        0x65 => known(Instruction::ADC, AddressingMode::ZeroPage, 3),
        0x66 => known(Instruction::ROR, AddressingMode::ZeroPage, 5),
        0x67 => known(Instruction::RRA, AddressingMode::ZeroPage, 5),
        0x68 => known(Instruction::PLA, AddressingMode::Implied, 4),
        0x69 => known(Instruction::ADC, AddressingMode::Immediate, 2),
        0x6A => known(Instruction::ROR, AddressingMode::Accumulator, 2),
        0x6B => known(Instruction::ARR, AddressingMode::Immediate, 2),
        0x6C => known(Instruction::JMP, AddressingMode::Indirect, 5),
        0x6D => known(Instruction::ADC, AddressingMode::Absolute, 4),
        0x6E => known(Instruction::ROR, AddressingMode::Absolute, 6),
        0x6F => known(Instruction::RRA, AddressingMode::Absolute, 6),
        0x70 => known(Instruction::BVS, AddressingMode::Relative, 2),
        0x71 => known(Instruction::ADC, AddressingMode::IndirectIndexed, 5),
        0x73 => known(Instruction::RRA, AddressingMode::IndirectIndexed, 8),
        0x74 => known(Instruction::NOP, AddressingMode::IndexedZeroPageX, 4),
        0x75 => known(Instruction::ADC, AddressingMode::IndexedZeroPageX, 4),
        0x76 => known(Instruction::ROR, AddressingMode::IndexedZeroPageX, 6),
        0x77 => known(Instruction::RRA, AddressingMode::IndexedZeroPageX, 6),
        0x78 => known(Instruction::SEI, AddressingMode::Implied, 2),
        0x79 => known(Instruction::ADC, AddressingMode::IndexedAbsoluteY, 4),
        0x7A => known(Instruction::NOP, AddressingMode::Implied, 2),
        0x7B => known(Instruction::RRA, AddressingMode::IndexedAbsoluteY, 7),
        0x7C => known(Instruction::NOP, AddressingMode::IndexedAbsoluteX, 4),
        0x7D => known(Instruction::ADC, AddressingMode::IndexedAbsoluteX, 4),
        0x7E => known(Instruction::ROR, AddressingMode::IndexedAbsoluteX, 7),
        0x7F => known(Instruction::RRA, AddressingMode::IndexedAbsoluteX, 7),
        _ => Err(DecodeError::IllegalUnimplementedOpcode { opcode: byte }),
    }
}

fn lookup_row_4(byte: u8) -> (result: Result<DecodedOpcode, DecodeError>)
    requires
        byte / 32 == 4,
    ensures
        result == decoding(byte),
{
    match byte {
        0x80 => known(Instruction::NOP, AddressingMode::Immediate, 2),
        0x81 => known(Instruction::STA, AddressingMode::IndexedIndirect, 6),
        0x83 => known(Instruction::SAX, AddressingMode::IndexedIndirect, 6),
        0x84 => known(Instruction::STY, AddressingMode::ZeroPage, 3),
        0x85 => known(Instruction::STA, AddressingMode::ZeroPage, 3),
        0x86 => known(Instruction::STX, AddressingMode::ZeroPage, 3),
        0x87 => known(Instruction::SAX, AddressingMode::ZeroPage, 3),
        0x88 => known(Instruction::DEY, AddressingMode::Implied, 2),
        0x8A => known(Instruction::TXA, AddressingMode::Implied, 2),
        0x8C => known(Instruction::STY, AddressingMode::Absolute, 4),
        0x8D => known(Instruction::STA, AddressingMode::Absolute, 4),
        0x8E => known(Instruction::STX, AddressingMode::Absolute, 4),
        0x8F => known(Instruction::SAX, AddressingMode::Absolute, 4),
        0x90 => known(Instruction::BCC, AddressingMode::Relative, 2),
        0x91 => known(Instruction::STA, AddressingMode::IndirectIndexed, 6),
        0x94 => known(Instruction::STY, AddressingMode::IndexedZeroPageX, 4),
        0x95 => known(Instruction::STA, AddressingMode::IndexedZeroPageX, 4),
        0x96 => known(Instruction::STX, AddressingMode::IndexedZeroPageY, 4),
        0x97 => known(Instruction::SAX, AddressingMode::IndexedZeroPageY, 4),
        0x98 => known(Instruction::TYA, AddressingMode::Implied, 2),
        0x99 => known(Instruction::STA, AddressingMode::IndexedAbsoluteY, 5),
        0x9A => known(Instruction::TXS, AddressingMode::Implied, 2),
        0x9D => known(Instruction::STA, AddressingMode::IndexedAbsoluteX, 5),
        _ => Err(DecodeError::IllegalUnimplementedOpcode { opcode: byte }),
    }
}

fn lookup_row_5(byte: u8) -> (result: Result<DecodedOpcode, DecodeError>)
    requires
        byte / 32 == 5,
    ensures
        result == decoding(byte),
{
    match byte {
        0xA0 => known(Instruction::LDY, AddressingMode::Immediate, 2),
        0xA1 => known(Instruction::LDA, AddressingMode::IndexedIndirect, 6),
        0xA2 => known(Instruction::LDX, AddressingMode::Immediate, 2),
        0xA3 => known(Instruction::LAX, AddressingMode::IndexedIndirect, 6),
        0xA4 => known(Instruction::LDY, AddressingMode::ZeroPage, 3),
        0xA5 => known(Instruction::LDA, AddressingMode::ZeroPage, 3),
        0xA6 => known(Instruction::LDX, AddressingMode::ZeroPage, 3),
        0xA7 => known(Instruction::LAX, AddressingMode::ZeroPage, 3),
        0xA8 => known(Instruction::TAY, AddressingMode::Implied, 2),
        0xA9 => known(Instruction::LDA, AddressingMode::Immediate, 2),
        0xAA => known(Instruction::TAX, AddressingMode::Implied, 2),
        0xAC => known(Instruction::LDY, AddressingMode::Absolute, 4),
        0xAD => known(Instruction::LDA, AddressingMode::Absolute, 4),
        0xAE => known(Instruction::LDX, AddressingMode::Absolute, 4),
        0xAF => known(Instruction::LAX, AddressingMode::Absolute, 4),
        0xB0 => known(Instruction::BCS, AddressingMode::Relative, 2),
        0xB1 => known(Instruction::LDA, AddressingMode::IndirectIndexed, 5),
        0xB3 => known(Instruction::LAX, AddressingMode::IndirectIndexed, 5),
        0xB4 => known(Instruction::LDY, AddressingMode::IndexedZeroPageX, 4),
        0xB5 => known(Instruction::LDA, AddressingMode::IndexedZeroPageX, 4),
        0xB6 => known(Instruction::LDX, AddressingMode::IndexedZeroPageY, 4),
        0xB7 => known(Instruction::LAX, AddressingMode::IndexedZeroPageY, 4),
        0xB8 => known(Instruction::CLV, AddressingMode::Implied, 2),
        0xB9 => known(Instruction::LDA, AddressingMode::IndexedAbsoluteY, 4),
        0xBA => known(Instruction::TSX, AddressingMode::Implied, 2),
        0xBC => known(Instruction::LDY, AddressingMode::IndexedAbsoluteX, 4),
        0xBD => known(Instruction::LDA, AddressingMode::IndexedAbsoluteX, 4),
        0xBE => known(Instruction::LDX, AddressingMode::IndexedAbsoluteY, 4),
        0xBF => known(Instruction::LAX, AddressingMode::IndexedAbsoluteY, 4),
        _ => Err(DecodeError::IllegalUnimplementedOpcode { opcode: byte }),
    }
}

fn lookup_row_6(byte: u8) -> (result: Result<DecodedOpcode, DecodeError>)
    requires
        byte / 32 == 6,
    ensures
        result == decoding(byte),
{
    match byte {
        0xC0 => known(Instruction::CPY, AddressingMode::Immediate, 2),
        0xC1 => known(Instruction::CMP, AddressingMode::IndexedIndirect, 6),
        0xC3 => known(Instruction::DCP, AddressingMode::IndexedIndirect, 8),
        0xC4 => known(Instruction::CPY, AddressingMode::ZeroPage, 3),
        0xC5 => known(Instruction::CMP, AddressingMode::ZeroPage, 3),
        0xC6 => known(Instruction::DEC, AddressingMode::ZeroPage, 5),
        0xC7 => known(Instruction::DCP, AddressingMode::ZeroPage, 5),
        0xC8 => known(Instruction::INY, AddressingMode::Implied, 2),
        0xC9 => known(Instruction::CMP, AddressingMode::Immediate, 2),
        0xCA => known(Instruction::DEX, AddressingMode::Implied, 2),
        0xCB => known(Instruction::AXS, AddressingMode::Immediate, 2),
        0xCC => known(Instruction::CPY, AddressingMode::Absolute, 4),
        0xCD => known(Instruction::CMP, AddressingMode::Absolute, 4),
        0xCE => known(Instruction::DEC, AddressingMode::Absolute, 6),
        0xCF => known(Instruction::DCP, AddressingMode::Absolute, 6),
        0xD0 => known(Instruction::BNE, AddressingMode::Relative, 2),
        0xD1 => known(Instruction::CMP, AddressingMode::IndirectIndexed, 5),
        0xD3 => known(Instruction::DCP, AddressingMode::IndirectIndexed, 8),
        0xD4 => known(Instruction::NOP, AddressingMode::IndexedZeroPageX, 4),
        0xD5 => known(Instruction::CMP, AddressingMode::IndexedZeroPageX, 4),
        0xD6 => known(Instruction::DEC, AddressingMode::IndexedZeroPageX, 6),
        0xD7 => known(Instruction::DCP, AddressingMode::IndexedZeroPageX, 6),
        0xD8 => known(Instruction::CLD, AddressingMode::Implied, 2),
        0xD9 => known(Instruction::CMP, AddressingMode::IndexedAbsoluteY, 4),
        0xDA => known(Instruction::NOP, AddressingMode::Implied, 2),
        0xDB => known(Instruction::DCP, AddressingMode::IndexedAbsoluteY, 7),
        0xDC => known(Instruction::NOP, AddressingMode::IndexedAbsoluteX, 4),
        0xDD => known(Instruction::CMP, AddressingMode::IndexedAbsoluteX, 4),
        0xDE => known(Instruction::DEC, AddressingMode::IndexedAbsoluteX, 7),
        0xDF => known(Instruction::DCP, AddressingMode::IndexedAbsoluteX, 7),
        _ => Err(DecodeError::IllegalUnimplementedOpcode { opcode: byte }),
    }
}

fn lookup_row_7(byte: u8) -> (result: Result<DecodedOpcode, DecodeError>)
    requires
        byte / 32 == 7,
    ensures
        result == decoding(byte),
{
    match byte {
        0xE0 => known(Instruction::CPX, AddressingMode::Immediate, 2),
        0xE1 => known(Instruction::SBC, AddressingMode::IndexedIndirect, 6),
        0xE3 => known(Instruction::ISC, AddressingMode::IndexedIndirect, 8),
        0xE4 => known(Instruction::CPX, AddressingMode::ZeroPage, 3),
        0xE5 => known(Instruction::SBC, AddressingMode::ZeroPage, 3),
        0xE6 => known(Instruction::INC, AddressingMode::ZeroPage, 5),
        0xE7 => known(Instruction::ISC, AddressingMode::ZeroPage, 5),
        0xE8 => known(Instruction::INX, AddressingMode::Implied, 2),
        0xE9 => known(Instruction::SBC, AddressingMode::Immediate, 2),
        0xEA => known(Instruction::NOP, AddressingMode::Implied, 2),
        0xEB => known(Instruction::SBC, AddressingMode::Immediate, 2),
        0xEC => known(Instruction::CPX, AddressingMode::Absolute, 4),
        0xED => known(Instruction::SBC, AddressingMode::Absolute, 4),
        0xEE => known(Instruction::INC, AddressingMode::Absolute, 6),
        0xEF => known(Instruction::ISC, AddressingMode::Absolute, 6),
        0xF0 => known(Instruction::BEQ, AddressingMode::Relative, 2),
        0xF1 => known(Instruction::SBC, AddressingMode::IndirectIndexed, 5),
        0xF3 => known(Instruction::ISC, AddressingMode::IndirectIndexed, 8),
        0xF4 => known(Instruction::NOP, AddressingMode::IndexedZeroPageX, 4),
        0xF5 => known(Instruction::SBC, AddressingMode::IndexedZeroPageX, 4),
        0xF6 => known(Instruction::INC, AddressingMode::IndexedZeroPageX, 6),
        0xF7 => known(Instruction::ISC, AddressingMode::IndexedZeroPageX, 6),
        0xF8 => known(Instruction::SED, AddressingMode::Implied, 2),
        0xF9 => known(Instruction::SBC, AddressingMode::IndexedAbsoluteY, 4),
        0xFA => known(Instruction::NOP, AddressingMode::Implied, 2),
        0xFB => known(Instruction::ISC, AddressingMode::IndexedAbsoluteY, 7),
        0xFC => known(Instruction::NOP, AddressingMode::IndexedAbsoluteX, 4),
        0xFD => known(Instruction::SBC, AddressingMode::IndexedAbsoluteX, 4),
        0xFE => known(Instruction::INC, AddressingMode::IndexedAbsoluteX, 7),
        0xFF => known(Instruction::ISC, AddressingMode::IndexedAbsoluteX, 7),
        _ => Err(DecodeError::IllegalUnimplementedOpcode { opcode: byte }),
    }
}

} // verus!
