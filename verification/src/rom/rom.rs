//! The cartridge image in the iNES format: a header of sixteen bytes, an
//! optional trainer of 512 bytes, the program ROM and the character ROM.

use vstd::prelude::*;
use crate::cpu::listing::{listed_opcode, listing_line, push_listing_line};
use crate::cpu::opcode::{AddressingMode, DecodedOpcode, DecodeError, Instruction, Opcode};
use crate::rom::mapper::{Mapper, Nrom, PRG_BANK_SIZE, CHR_BANK_SIZE};
use crate::text::{hex_number, push_char, push_hex_number};

verus! {

/// Length of the header.
pub const HEADER_SIZE: usize = 16;

/// Length of the trainer, where the header announces one.
pub const TRAINER_SIZE: usize = 512;

/// Why an image was not accepted.
#[derive(Debug, Clone, Copy, PartialEq, Eq)]
pub enum ROMError {
    /// The image does not begin with `N`, `E`, `S`, `0x1A`.
    InvalidHeader { header_bytes: [u8; 16] },
}

/// The header of an image, field by field.
pub struct ROMHeader {
    /// The first four bytes, `N`, `E`, `S`, `0x1A`.
    pub nes: [u8; 4],
    /// Number of program ROM banks of 16 KiB.
    pub num_prg_banks: usize,
    /// Number of character ROM banks of 8 KiB.
    pub num_chr_banks: usize,
    /// Byte 6: the low half of the mapper number in its high half, the
    /// trainer switch in bit 2.
    pub lower_mapper_bits: u8,
    /// Byte 7: the high half of the mapper number in its high half.
    pub upper_mapper_bits: u8,
    /// The last eight bytes, reserved.
    pub zeros: [u8; 8],
}

/// A loaded cartridge.
pub struct ROM {
    pub header: ROMHeader,
    /// The program ROM.
    pub prg: Vec<u8>,
    /// The character ROM.
    pub chr: Vec<u8>,
    /// The mapper between the bus and the two ROMs.
    pub mapper: Nrom,
}

/// Whether the bytes begin with the four bytes that mark an image.
pub open spec fn has_magic(bytes: Seq<u8>) -> bool {
    &&& bytes.len() >= 4
    &&& bytes[0] == 0x4E
    &&& bytes[1] == 0x45
    &&& bytes[2] == 0x53
    &&& bytes[3] == 0x1A
}

/// Whether byte 6 of a header announces a trainer.
pub open spec fn trainer_switch(lower_mapper_bits: u8) -> bool {
    lower_mapper_bits & 0x04 != 0
}

/// Where the program ROM begins in an image with the given byte 6.
pub open spec fn prg_start(lower_mapper_bits: u8) -> nat {
    if trainer_switch(lower_mapper_bits) {
        (HEADER_SIZE + TRAINER_SIZE) as nat
    } else {
        HEADER_SIZE as nat
    }
}

/// Where the program ROM ends and the character ROM begins.
pub open spec fn prg_end(image: Seq<u8>) -> nat {
    prg_start(image[6]) + image[4] as nat * PRG_BANK_SIZE as nat
}

/// Where the character ROM ends.
pub open spec fn chr_end(image: Seq<u8>) -> nat {
    prg_end(image) + image[5] as nat * CHR_BANK_SIZE as nat
}

/// Whether an image is long enough to be loaded: it holds a header and, if
/// the header is valid, all the ROM that the header announces.
pub open spec fn is_complete(image: Seq<u8>) -> bool {
    &&& image.len() >= HEADER_SIZE
    &&& has_magic(image) ==> image.len() >= chr_end(image)
}

/// The mapper number that the bytes 6 and 7 of a header encode.
pub open spec fn mapper_number(lower_mapper_bits: u8, upper_mapper_bits: u8) -> u8 {
    (lower_mapper_bits & 0xF0) >> 4 | upper_mapper_bits & 0xF0
}

/// The mapper number has the high half of byte 6 as its low half and the
/// high half of byte 7 as its high half.
pub proof fn lemma_mapper_number(lower_mapper_bits: u8, upper_mapper_bits: u8)
    by (bit_vector)
    ensures
        mapper_number(lower_mapper_bits, upper_mapper_bits) == lower_mapper_bits / 16
            + (upper_mapper_bits / 16) * 16,
        trainer_switch(lower_mapper_bits) == ((lower_mapper_bits / 4) % 2 == 1),
{
}

impl ROMHeader {
    /// Whether this header is what the sixteen bytes say.
    pub open spec fn parsed_from(&self, bytes: Seq<u8>) -> bool {
        &&& self.nes@ == bytes.subrange(0, 4)
        &&& self.num_prg_banks == bytes[4]
        &&& self.num_chr_banks == bytes[5]
        &&& self.lower_mapper_bits == bytes[6]
        &&& self.upper_mapper_bits == bytes[7]
        &&& self.zeros@ == bytes.subrange(8, 16)
    }

    /// Reads a header. It is rejected, with the bytes handed back, unless
    /// it begins with the four marker bytes.
    pub fn new(header_bytes: [u8; 16]) -> (result: Result<ROMHeader, ROMError>)
        ensures
            match result {
                Ok(header) => has_magic(header_bytes@) && header.parsed_from(header_bytes@),
                Err(ROMError::InvalidHeader { header_bytes: returned }) => !has_magic(
                    header_bytes@,
                ) && returned == header_bytes,
            },
    {
        if header_bytes[0] != 0x4E || header_bytes[1] != 0x45 || header_bytes[2] != 0x53
            || header_bytes[3] != 0x1A {
            Err(ROMError::InvalidHeader { header_bytes })
        } else {
            let header = ROMHeader {
                nes: [header_bytes[0], header_bytes[1], header_bytes[2], header_bytes[3]],
                num_prg_banks: header_bytes[4] as usize,
                num_chr_banks: header_bytes[5] as usize,
                lower_mapper_bits: header_bytes[6],
                upper_mapper_bits: header_bytes[7],
                zeros: [
                    header_bytes[8],
                    header_bytes[9],
                    header_bytes[10],
                    header_bytes[11],
                    header_bytes[12],
                    header_bytes[13],
                    header_bytes[14],
                    header_bytes[15],
                ],
            };
            assert(header.nes@ =~= header_bytes@.subrange(0, 4));
            assert(header.zeros@ =~= header_bytes@.subrange(8, 16));
            Ok(header)
        }
    }

    /// Offset of the program ROM in the image: behind the header, and
    /// behind the trainer where there is one.
    pub fn prg_rom_start_offset(&self) -> (offset: usize)
        ensures
            offset == prg_start(self.lower_mapper_bits),
    {
        if self.lower_mapper_bits & 0x04 != 0 {
            HEADER_SIZE + TRAINER_SIZE
        } else {
            HEADER_SIZE
        }
    }

    /// Number of the mapper that the cartridge carries.
    pub fn mapper_id(&self) -> (id: u8)
        ensures
            id == mapper_number(self.lower_mapper_bits, self.upper_mapper_bits),
    {
        (self.lower_mapper_bits & 0xF0) >> 4 | self.upper_mapper_bits & 0xF0
    }
}

/// The bytes of `source` from `from` up to, not including, `to`.
fn copy_range(source: &Vec<u8>, from: usize, to: usize) -> (copy: Vec<u8>)
    requires
        from <= to <= source.len(),
    ensures
        copy@ == source@.subrange(from as int, to as int),
{
    let mut copy: Vec<u8> = Vec::new();
    let mut i: usize = from;
    while i < to
        invariant
            from <= i <= to <= source.len(),
            copy@ == source@.subrange(from as int, i as int),
        decreases to - i,
    {
        copy.push(source[i]);
        i += 1;
        assert(copy@ =~= source@.subrange(from as int, i as int));
    }
    copy
}

impl ROM {
    /// Whether this cartridge is what the image holds.
    pub open spec fn loaded_from(&self, image: Seq<u8>) -> bool {
        &&& self.header.parsed_from(image.subrange(0, 16))
        &&& self.prg@ == image.subrange(prg_start(image[6]) as int, prg_end(image) as int)
        &&& self.chr@ == image.subrange(prg_end(image) as int, chr_end(image) as int)
        &&& self.mapper == Nrom {
            num_prg_banks: image[4] as usize,
            num_chr_banks: image[5] as usize,
        }
    }

    /// Whether the image is long enough for `new`: it holds a header and,
    /// if the header is valid, all the ROM that the header announces.
    pub fn is_complete(rom_bytes: &Vec<u8>) -> (complete: bool)
        ensures
            complete == is_complete(rom_bytes@),
    {
        if rom_bytes.len() < HEADER_SIZE {
            return false;
        }
        if rom_bytes[0] != 0x4E || rom_bytes[1] != 0x45 || rom_bytes[2] != 0x53 || rom_bytes[3]
            != 0x1A {
            return true;
        }
        let start: usize = if rom_bytes[6] & 0x04 != 0 {
            HEADER_SIZE + TRAINER_SIZE
        } else {
            HEADER_SIZE
        };
        let needed: usize = start + rom_bytes[4] as usize * PRG_BANK_SIZE + rom_bytes[5] as usize
            * CHR_BANK_SIZE;
        rom_bytes.len() >= needed
    }

    /// Loads a cartridge from an image. An image that does not begin with
    /// the four marker bytes is rejected with its first sixteen bytes.
    pub fn new(rom_bytes: Vec<u8>) -> (result: Result<ROM, ROMError>)
        requires
            is_complete(rom_bytes@),
        ensures
            match result {
                Ok(rom) => has_magic(rom_bytes@) && rom.loaded_from(rom_bytes@),
                Err(ROMError::InvalidHeader { header_bytes }) => !has_magic(rom_bytes@)
                    && header_bytes@ == rom_bytes@.subrange(0, 16),
            },
    {
        let header_bytes: [u8; 16] = [
            rom_bytes[0],
            rom_bytes[1],
            rom_bytes[2],
            rom_bytes[3],
            rom_bytes[4],
            rom_bytes[5],
            rom_bytes[6],
            rom_bytes[7],
            rom_bytes[8],
            rom_bytes[9],
            rom_bytes[10],
            rom_bytes[11],
            rom_bytes[12],
            rom_bytes[13],
            rom_bytes[14],
            rom_bytes[15],
        ];
        assert(header_bytes@ =~= rom_bytes@.subrange(0, 16));
        match ROMHeader::new(header_bytes) {
            Err(error) => Err(error),
            Ok(header) => {
                let prg_start = header.prg_rom_start_offset();
                let prg_end = prg_start + header.num_prg_banks * PRG_BANK_SIZE;
                let chr_end = prg_end + header.num_chr_banks * CHR_BANK_SIZE;
                let prg = copy_range(&rom_bytes, prg_start, prg_end);
                let chr = copy_range(&rom_bytes, prg_end, chr_end);
                let mapper = Nrom {
                    num_prg_banks: header.num_prg_banks,
                    num_chr_banks: header.num_chr_banks,
                };
                Ok(ROM { header, prg, chr, mapper })
            },
        }
    }
}


/// The listing of a program from the offset `head` on. The bytes are read
/// one instruction behind the other, whether they are code or data: an
/// opcode, then as many operand bytes as its addressing mode takes. The
/// walk ends where no byte is left behind the opcode, or where the image
/// ends inside an operand. A line gets the byte behind the opcode and the
/// last byte of the instruction, which are the two operand bytes where
/// there are two.
pub open spec fn listing_from(prg: Seq<u8>, head: int) -> Seq<char>
    decreases prg.len() - head,
{
    if head < 0 || head + 1 >= prg.len() {
        Seq::empty()
    } else {
        let opcode = listed_opcode(prg[head]);
        let next = head + 1 + opcode.mode.operand_bytes();
        if next > prg.len() {
            Seq::empty()
        } else {
            listing_line(head as nat, prg[head], opcode, prg[head + 1], prg[next - 1])
                + listing_from(prg, next)
        }
    }
}

/// The bytes in hexadecimal, without leading zeros, a space behind each.
pub open spec fn hex_dump(bytes: Seq<u8>) -> Seq<char>
    decreases bytes.len(),
{
    if bytes.len() == 0 {
        Seq::empty()
    } else {
        hex_dump(bytes.drop_last()) + hex_number(bytes.last() as nat) + seq![' ']
    }
}

/// A program that can be listed as assembly text.
pub trait DisassembleRom {
    /// The listing that `disassemble_prg_rom` must give.
    spec fn disassembled(&self) -> Seq<char>;

    /// Lists the program ROM, one instruction per line. A byte that is no
    /// opcode is listed as `UNK`, so the listing never fails.
    fn disassemble_prg_rom(&self) -> (result: Result<String, DecodeError>)
        ensures
            result matches Ok(listing) && listing@ == self.disassembled(),
    ;
}

impl DisassembleRom for ROM {
    open spec fn disassembled(&self) -> Seq<char> {
        listing_from(self.prg@, 0)
    }

    fn disassemble_prg_rom(&self) -> (result: Result<String, DecodeError>) {
        let mut head: usize = 0;
        let mut disassembled = String::new();
        let length = self.prg.len();
        while length - head > 1
            invariant
                length == self.prg@.len(),
                head <= length,
                disassembled@ + listing_from(self.prg@, head as int) == listing_from(
                    self.prg@,
                    0,
                ),
            ensures
                listing_from(self.prg@, head as int) == Seq::<char>::empty(),
            decreases length - head,
        {
            let byte = self.prg[head];
            let opcode = match byte.decode() {
                Err(_) => DecodedOpcode {
                    instruction: Instruction::UNK,
                    mode: AddressingMode::Implied,
                    cycles: 0,
                },
                Ok(decoded_opcode) => decoded_opcode,
            };
            let size: usize = 1 + opcode.mode.operand_length() as usize;
            if size > length - head {
                break ;
            }
            let next = head + size;
            let ghost before = disassembled@;
            push_listing_line(
                &mut disassembled,
                head,
                byte,
                opcode,
                self.prg[head + 1],
                self.prg[next - 1],
            );
            assert(before + listing_from(self.prg@, head as int) =~= disassembled@
                + listing_from(self.prg@, next as int));
            head = next;
        }
        assert(disassembled@ =~= listing_from(self.prg@, 0));
        Ok(disassembled)
    }
}

impl ROM {
    /// The program ROM as text: every byte in hexadecimal with a space
    /// behind it.
    pub fn prg_hex_dump(&self) -> (dump: String)
        ensures
            dump@ == hex_dump(self.prg@),
    {
        let mut dump = String::new();
        let mut i: usize = 0;
        while i < self.prg.len()
            invariant
                i <= self.prg.len(),
                dump@ == hex_dump(self.prg@.take(i as int)),
            decreases self.prg.len() - i,
        {
            let ghost before = dump@;
            push_hex_number(&mut dump, self.prg[i] as usize);
            push_char(&mut dump, ' ');
            assert(self.prg@.take(i + 1).drop_last() =~= self.prg@.take(i as int));
            assert(dump@ =~= hex_dump(self.prg@.take(i + 1)));
            i += 1;
        }
        assert(self.prg@.take(i as int) =~= self.prg@);
        dump
    }
}

} // verus!
