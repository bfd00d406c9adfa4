//! A disassembler for single instructions: the name and the length of the
//! instruction at an address, and its bytes as text.

use vstd::prelude::*;
use crate::utils::{
    hex_byte, hex_byte_text, hex_word_text, push_char, push_hex_byte, push_spaces, push_text, spaces,
};
use super::memory::{Memory, MemoryState};
use super::opcode::decode;

verus! {

/// The instruction at an address: its opcode byte and the three bytes behind
/// it.
#[derive(Clone, Copy, Debug)]
pub struct Instruction {
    pub opcode: u8,
    pub operands: [u8; 3],
    pub pc: u16,
}

/// The name and the length of the instruction that a byte without a prefix
/// stands for; a byte that stands for none is `Unknown`, of length 1.
pub open spec fn plain_definition(opcode: u8) -> (Seq<char>, u8) {
    match opcode {
        0x00 => ("NOP"@, 1u8),
        0x01 => ("LD BC, nn"@, 3u8),
        0x04 => ("INC B"@, 1u8),
        0x05 => ("DEC B"@, 1u8),
        0x06 => ("LD B, n"@, 2u8),
        0x07 => ("RLCA"@, 1u8),
        0x08 => ("EX AF, AF'"@, 1u8),
        0x09 => ("ADD HL, BC"@, 1u8),
        0x0A => ("LD A, (BC)"@, 1u8),
        0x0B => ("DEC BC"@, 1u8),
        0x0C => ("INC C"@, 1u8),
        0x0D => ("DEC C"@, 1u8),
        0x0E => ("LD C, n"@, 2u8),
        0x0F => ("RRCA"@, 1u8),
        0x10 => ("DJNZ n"@, 2u8),
        0x11 => ("LD DE, nn"@, 3u8),
        0x12 => ("LD (DE), A"@, 1u8),
        0x13 => ("INC DE"@, 1u8),
        0x14 => ("INC D"@, 1u8),
        0x15 => ("DEC D"@, 1u8),
        0x16 => ("LD D, n"@, 2u8),
        0x18 => ("JR n"@, 2u8),
        0x19 => ("ADD HL, DE"@, 1u8),
        0x1A => ("LD A, (DE)"@, 1u8),
        0x1B => ("DEC DE"@, 1u8),
        0x1C => ("INC E"@, 1u8),
        0x1D => ("DEC E"@, 1u8),
        0x1E => ("LD E, n"@, 2u8),
        0x20 => ("JR NZ, n"@, 2u8),
        0x21 => ("LD HL, nn"@, 3u8),
        0x22 => ("LD (nn), HL"@, 3u8),
        0x23 => ("INC HL"@, 1u8),
        0x24 => ("INC H"@, 1u8),
        0x25 => ("DEC H"@, 1u8),
        0x26 => ("LD H, n"@, 2u8),
        0x28 => ("JR Z, n"@, 2u8),
        0x29 => ("ADD HL, HL"@, 1u8),
        0x2A => ("LD HL, (nn)"@, 3u8),
        0x2B => ("DEC HL"@, 1u8),
        0x2C => ("INC L"@, 1u8),
        0x2D => ("DEC L"@, 1u8),
        0x2E => ("LD L, n"@, 2u8),
        0x2F => ("CPL"@, 1u8),
        0x30 => ("JR NC, n"@, 2u8),
        0x31 => ("LD SP, nn"@, 3u8),
        0x32 => ("LD (nn), A"@, 3u8),
        0x34 => ("INC (HL)"@, 1u8),
        0x35 => ("DEC (HL)"@, 1u8),
        0x36 => ("LD (HL), n"@, 2u8),
        0x37 => ("SCF"@, 1u8),
        0x38 => ("JR C, n"@, 2u8),
        0x39 => ("ADD HL, SP"@, 1u8),
        0x3A => ("LD A, (nn)"@, 3u8),
        0x3C => ("INC A"@, 1u8),
        0x3D => ("DEC A"@, 1u8),
        0x3E => ("LD A, n"@, 2u8),
        0x3F => ("CCF"@, 1u8),
        0x41 => ("LD B, C"@, 1u8),
        0x42 => ("LD B, D"@, 1u8),
        0x43 => ("LD B, E"@, 1u8),
        0x44 => ("LD B, H"@, 1u8),
        0x45 => ("LD B, L"@, 1u8),
        0x47 => ("LD B, A"@, 1u8),
        0x48 => ("LD C, B"@, 1u8),
        0x4A => ("LD C, D"@, 1u8),
        0x4B => ("LD C, E"@, 1u8),
        0x4C => ("LD C, H"@, 1u8),
        0x4D => ("LD C, L"@, 1u8),
        0x4F => ("LD C, A"@, 1u8),
        0x50 => ("LD D, B"@, 1u8),
        0x51 => ("LD D, C"@, 1u8),
        0x53 => ("LD D, E"@, 1u8),
        0x54 => ("LD D, H"@, 1u8),
        0x55 => ("LD D, L"@, 1u8),
        0x56 => ("LD D, E"@, 1u8),
        0x57 => ("LD D, A"@, 1u8),
        0x58 => ("LD E, B"@, 1u8),
        0x59 => ("LD E, C"@, 1u8),
        0x5A => ("LD E, D"@, 1u8),
        0x5C => ("LD E, H"@, 1u8),
        0x5D => ("LD E, L"@, 1u8),
        0x5E => ("LD E, (HL)"@, 1u8),
        0x5F => ("LD E, A"@, 1u8),
        0x60 => ("LD H, B"@, 1u8),
        0x61 => ("LD H, C"@, 1u8),
        0x62 => ("LD H, D"@, 1u8),
        0x63 => ("LD H, E"@, 1u8),
        0x64 => ("LD H, H"@, 1u8),
        0x65 => ("LD H, L"@, 1u8),
        0x66 => ("LD H, (HL)"@, 1u8),
        0x67 => ("LD H, A"@, 1u8),
        0x68 => ("LD L, B"@, 1u8),
        0x69 => ("LD L, C"@, 1u8),
        0x6A => ("LD L, D"@, 1u8),
        0x6B => ("LD L, E"@, 1u8),
        0x6C => ("LD L, H"@, 1u8),
        0x6F => ("LD L, A"@, 1u8),
        0x70 => ("LD (HL), B"@, 1u8),
        0x71 => ("LD (HL), C"@, 1u8),
        0x72 => ("LD (HL), D"@, 1u8),
        0x73 => ("LD (HL), E"@, 1u8),
        0x74 => ("LD (HL), H"@, 1u8),
        0x75 => ("LD (HL), L"@, 1u8),
        0x76 => ("HALT"@, 1u8),
        0x77 => ("LD (HL), A"@, 1u8),
        0x78 => ("LD A, B"@, 1u8),
        0x79 => ("LD A, C"@, 1u8),
        0x7A => ("LD A, D"@, 1u8),
        0x7B => ("LD A, E"@, 1u8),
        0x7C => ("LD A, H"@, 1u8),
        0x7D => ("LD A, L"@, 1u8),
        0x7E => ("LD A, (HL)"@, 1u8),
        0x80 => ("ADD A, B"@, 1u8),
        0x81 => ("ADD A, C"@, 1u8),
        0x82 => ("ADD A, D"@, 1u8),
        0x83 => ("ADD A, E"@, 1u8),
        0x84 => ("ADD A, H"@, 1u8),
        0x85 => ("ADD A, L"@, 1u8),
        0x86 => ("ADD A, (HL)"@, 1u8),
        0x87 => ("ADD A, A"@, 1u8),
        0x88 => ("ADC A, B"@, 1u8),
        0x89 => ("ADC A, C"@, 1u8),
        0x8A => ("ADC A, D"@, 1u8),
        0x8B => ("ADC A, E"@, 1u8),
        0x8C => ("ADC A, H"@, 1u8),
        0x8D => ("ADC A, L"@, 1u8),
        0x8E => ("ADC A, (HL)"@, 1u8),
        0x8F => ("ADC A, A"@, 1u8),
        0x90 => ("SUB B"@, 1u8),
        0x91 => ("SUB C"@, 1u8),
        0x92 => ("SUB D"@, 1u8),
        0x93 => ("SUB E"@, 1u8),
        0x94 => ("SUB H"@, 1u8),
        0x95 => ("SUB L"@, 1u8),
        0x96 => ("SUB (HL)"@, 1u8),
        0x97 => ("SUB A"@, 1u8),
        0x98 => ("SBC A, B"@, 1u8),
        0x99 => ("SBC A, C"@, 1u8),
        0x9A => ("SBC A, D"@, 1u8),
        0x9B => ("SBC A, E"@, 1u8),
        0x9C => ("SBC A, H"@, 1u8),
        0x9D => ("SBC A, L"@, 1u8),
        0x9E => ("SBC A, (HL)"@, 1u8),
        0x9F => ("SBC A, A"@, 1u8),
        0xA0 => ("AND B"@, 1u8),
        0xA1 => ("AND C"@, 1u8),
        0xA2 => ("AND D"@, 1u8),
        0xA3 => ("AND E"@, 1u8),
        0xA4 => ("AND H"@, 1u8),
        0xA5 => ("AND L"@, 1u8),
        0xA6 => ("AND (HL)"@, 1u8),
        0xA7 => ("AND A"@, 1u8),
        0xA8 => ("XOR B"@, 1u8),
        0xA9 => ("XOR C"@, 1u8),
        0xAA => ("XOR D"@, 1u8),
        0xAB => ("XOR E"@, 1u8),
        0xAC => ("XOR H"@, 1u8),
        0xAD => ("XOR L"@, 1u8),
        0xAE => ("XOR (HL)"@, 1u8),
        0xAF => ("XOR A"@, 1u8),
        0xB0 => ("OR B"@, 1u8),
        0xB1 => ("OR C"@, 1u8),
        0xB2 => ("OR D"@, 1u8),
        0xB3 => ("OR E"@, 1u8),
        0xB4 => ("OR H"@, 1u8),
        0xB5 => ("OR L"@, 1u8),
        0xB6 => ("OR (HL)"@, 1u8),
        0xB7 => ("OR A"@, 1u8),
        0xB8 => ("CP B"@, 1u8),
        0xB9 => ("CP C"@, 1u8),
        0xBA => ("CP D"@, 1u8),
        0xBB => ("CP E"@, 1u8),
        0xBC => ("CP H"@, 1u8),
        0xBD => ("CP L"@, 1u8),
        0xBE => ("CP (HL)"@, 1u8),
        0xBF => ("CP A"@, 1u8),
        0xC0 => ("RET NZ"@, 1u8),
        0xC1 => ("POP BC"@, 1u8),
        0xC2 => ("JP NZ, nn"@, 3u8),
        0xC3 => ("JP nn"@, 3u8),
        0xC5 => ("PUSH BC"@, 1u8),
        0xC6 => ("ADD A, n"@, 2u8),
        0xC7 => ("RST 00H"@, 1u8),
        0xC8 => ("RET Z"@, 1u8),
        0xC9 => ("RET"@, 1u8),
        0xCA => ("JP Z, nn"@, 3u8),
        0xCC => ("CALL Z, nn"@, 3u8),
        0xCD => ("CALL nn"@, 3u8),
        0xCE => ("ADC A, n"@, 2u8),
        0xD0 => ("RET NC"@, 1u8),
        0xD1 => ("POP DE"@, 1u8),
        0xD2 => ("JP NC, nn"@, 3u8),
        0xD3 => ("OUT (n), A"@, 2u8),
        0xD5 => ("PUSH DE"@, 1u8),
        0xD6 => ("SUB n"@, 2u8),
        0xD7 => ("RST 10H"@, 1u8),
        0xD8 => ("RET C"@, 1u8),
        0xD9 => ("EXX"@, 1u8),
        0xDA => ("JP C, nn"@, 3u8),
        0xDB => ("IN A, (n)"@, 2u8),
        0xDC => ("CALL C, nn"@, 3u8),
        0xDE => ("SBC A, n"@, 2u8),
        0xDF => ("RST 18H"@, 1u8),
        0xE1 => ("POP HL"@, 1u8),
        0xE3 => ("EX (SP), HL"@, 1u8),
        0xE5 => ("PUSH HL"@, 1u8),
        0xE6 => ("AND n"@, 2u8),
        0xE7 => ("RST 20H"@, 1u8),
        0xEB => ("EX DE, HL"@, 1u8),
        0xEE => ("XOR n"@, 2u8),
        0xF0 => ("RET P"@, 1u8),
        0xF1 => ("POP AF"@, 1u8),
        0xF2 => ("JP P, nn"@, 3u8),
        0xF3 => ("DI"@, 1u8),
        0xF5 => ("PUSH AF"@, 1u8),
        0xF6 => ("OR n"@, 2u8),
        0xF8 => ("RET M"@, 1u8),
        0xF9 => ("LD SP, HL"@, 1u8),
        0xFA => ("JP M, nn"@, 3u8),
        0xFB => ("EI"@, 1u8),
        0xFE => ("CP n"@, 2u8),
        0xFF => ("RST 38H"@, 1u8),
        _ => ("Unknown"@, 1u8),
    }
}

/// The name and the length of the instruction that `byte` stands for after
/// a `CB` prefix.
pub open spec fn cb_definition(byte: u8) -> (Seq<char>, u8) {
    if byte < 0x20 {
        ("RLC r"@, 2u8)
    } else if 0x28 <= byte < 0x30 {
        ("SRA r"@, 2u8)
    } else if byte < 0x40 {
        ("SLA r"@, 2u8)
    } else if byte < 0x80 {
        ("BIT b, r"@, 2u8)
    } else if byte < 0xC0 {
        ("RES b, r"@, 2u8)
    } else {
        ("SET b, r"@, 2u8)
    }
}

/// The name and the length of the instruction that `byte` stands for after
/// an `ED` prefix.
pub open spec fn ed_definition(byte: u8) -> (Seq<char>, u8) {
    match byte {
        0xB0 => ("LDIR"@, 2u8),
        0x56 => ("IM 1"@, 2u8),
        0xA3 => ("OUTI"@, 2u8),
        _ => ("Unknown"@, 1u8),
    }
}

/// The name and the length of the instruction that `byte` stands for after
/// a `DD` prefix.
pub open spec fn dd_definition(byte: u8) -> (Seq<char>, u8) {
    match byte {
        0xBE => ("CP (IX+d)"@, 3u8),
        0x21 => ("LD IX, nn"@, 4u8),
        0xE5 => ("PUSH IX"@, 2u8),
        0xE1 => ("POP IX"@, 2u8),
        _ => ("Unknown"@, 1u8),
    }
}

/// The name and the length of the instruction that `byte` stands for after
/// an `FD` prefix.
pub open spec fn fd_definition(byte: u8) -> (Seq<char>, u8) {
    match byte {
        0xBE => ("CP (IY+d)"@, 3u8),
        0x2A => ("LD IY, (nn)"@, 4u8),
        0xE5 => ("PUSH IY"@, 2u8),
        0xE1 => ("POP IY"@, 2u8),
        _ => ("Unknown"@, 1u8),
    }
}

/// The name and the length of the instruction that starts with `opcode` and
/// `next`.
pub open spec fn definition(opcode: u8, next: u8) -> (Seq<char>, u8) {
    if opcode == 0xCB {
        cb_definition(next)
    } else if opcode == 0xED {
        ed_definition(next)
    } else if opcode == 0xDD {
        dd_definition(next)
    } else if opcode == 0xFD {
        fd_definition(next)
    } else {
        plain_definition(opcode)
    }
}

/// The first `count` operand bytes as text: two hexadecimal digits and a
/// space for each.
pub open spec fn operands_text(operands: Seq<u8>, count: nat) -> Seq<char>
    decreases count,
{
    if count == 0 {
        Seq::empty()
    } else {
        operands_text(operands, (count - 1) as nat) + hex_byte_text(operands[count - 1]) + seq![
            ' ',
        ]
    }
}

impl Instruction {
    /// The name of the instruction.
    pub open spec fn spec_name(self) -> Seq<char> {
        definition(self.opcode, self.operands@[0]).0
    }

    /// The length of the instruction in bytes, from 1 to 4.
    pub open spec fn spec_len(self) -> u8 {
        definition(self.opcode, self.operands@[0]).1
    }

    /// The opcode and the operands as text: two hexadecimal digits and a
    /// space for each byte of the instruction.
    pub open spec fn bytes_text(self) -> Seq<char> {
        hex_byte_text(self.opcode) + seq![' '] + operands_text(
            self.operands@,
            (self.spec_len() - 1) as nat,
        )
    }

    /// The line of a listing: the address in four hexadecimal digits, the
    /// opcode in two, the operands in a column of ten characters, and the
    /// name.
    pub open spec fn listing_text(self) -> Seq<char> {
        let args = operands_text(self.operands@, (self.spec_len() - 1) as nat);
        hex_word_text(self.pc) + seq![' '] + hex_byte_text(self.opcode) + seq![' '] + args
            + spaces((10 - args.len()) as nat) + seq![' '] + self.spec_name()
    }

    /// Whether this is the instruction that `memory` holds at `pc`: the
    /// opcode there and the three bytes behind it, with addresses counting on
    /// from `0xFFFF` to 0.
    pub open spec fn is_at(self, memory: MemoryState, pc: u16) -> bool {
        &&& self.pc == pc
        &&& self.opcode == memory.read_byte(pc)
        &&& self.operands@ == seq![
            memory.read_byte(pc.wrapping_add(1)),
            memory.read_byte(pc.wrapping_add(2)),
            memory.read_byte(pc.wrapping_add(3)),
        ]
    }

    /// Reads the instruction at `pc`.
    pub fn parse(memory: &Memory, pc: u16) -> (instruction: Instruction)
        ensures
            instruction.is_at(memory@, pc),
    {
        let opcode = memory.read_byte(pc);
        let operands = [
            memory.read_byte(pc.wrapping_add(1)),
            memory.read_byte(pc.wrapping_add(2)),
            memory.read_byte(pc.wrapping_add(3)),
        ];
        Instruction { opcode, operands, pc }
    }

    pub fn name(&self) -> (name: &'static str)
        ensures
            name@ == self.spec_name(),
    {
        self.as_def().0
    }

    pub fn len(&self) -> (length: u8)
        ensures
            length == self.spec_len(),
            1 <= length <= 4,
    {
        self.as_def().1
    }

    /// The bytes of the instruction, each as two hexadecimal digits.
    pub fn as_hex_vector(&self) -> (bytes: Vec<String>)
        ensures
            bytes@.len() == self.spec_len(),
            bytes@[0]@ == hex_byte_text(self.opcode),
            forall|i: int|
                1 <= i < self.spec_len() ==> (#[trigger] bytes@[i])@ == hex_byte_text(
                    self.operands@[i - 1],
                ),
    {
        let length = self.len();
        let mut res: Vec<String> = Vec::new();
        res.push(hex_byte(self.opcode));
        let mut i: u8 = 1;
        while i < length
            invariant
                1 <= i <= length <= 4,
                res@.len() == i,
                res@[0]@ == hex_byte_text(self.opcode),
                forall|k: int|
                    1 <= k < i ==> (#[trigger] res@[k])@ == hex_byte_text(self.operands@[k - 1]),
            decreases length - i,
        {
            res.push(hex_byte(self.operands[(i - 1) as usize]));
            i = i + 1;
        }
        res
    }

    /// Appends the operands, each as two hexadecimal digits and a space.
    fn push_operands(&self, text: &mut String)
        ensures
            final(text)@ == old(text)@ + operands_text(
                self.operands@,
                (self.spec_len() - 1) as nat,
            ),
            operands_text(self.operands@, (self.spec_len() - 1) as nat).len() == 3 * (
            self.spec_len() - 1),
    {
        let length = self.len();
        let mut i: u8 = 1;
        assert(text@ =~= old(text)@ + operands_text(self.operands@, 0));
        while i < length
            invariant
                1 <= i <= length <= 4,
                text@ == old(text)@ + operands_text(self.operands@, (i - 1) as nat),
                operands_text(self.operands@, (i - 1) as nat).len() == 3 * (i - 1),
            decreases length - i,
        {
            let ghost before = text@;
            push_hex_byte(text, self.operands[(i - 1) as usize]);
            push_char(text, ' ');
            assert(text@ =~= old(text)@ + operands_text(self.operands@, i as nat));
            i = i + 1;
        }
    }

    /// The opcode and the operands as text.
    pub fn opcode_with_args(&self) -> (text: String)
        ensures
            text@ == self.bytes_text(),
    {
        let mut text = String::new();
        push_hex_byte(&mut text, self.opcode);
        push_char(&mut text, ' ');
        self.push_operands(&mut text);
        assert(text@ =~= self.bytes_text());
        text
    }

    /// The line of a listing for the instruction.
    pub fn to_text(&self) -> (text: String)
        ensures
            text@ == self.listing_text(),
    {
        let length = self.len();
        let mut text = String::new();
        push_hex_byte(&mut text, (self.pc / 256) as u8);
        push_hex_byte(&mut text, (self.pc % 256) as u8);
        push_char(&mut text, ' ');
        push_hex_byte(&mut text, self.opcode);
        push_char(&mut text, ' ');
        self.push_operands(&mut text);
        push_spaces(&mut text, 10 - 3 * (length as usize - 1));
        push_char(&mut text, ' ');
        push_text(&mut text, self.name());
        assert(text@ =~= self.listing_text());
        text
    }

    /// The name and the length of the instruction.
    pub fn as_def(&self) -> (def: (&'static str, u8))
        ensures
            def.0@ == self.spec_name(),
            def.1 == self.spec_len(),
            1 <= def.1 <= 4,
    {
        let next = self.operands[0];
        match self.opcode {
            0xCB => cb_def(next),
            0xED => ed_def(next),
            0xDD => dd_def(next),
            0xFD => fd_def(next),
            _ => plain_def(self.opcode),
        }
    }
}

fn cb_def(byte: u8) -> (def: (&'static str, u8))
    ensures
        def.0@ == cb_definition(byte).0,
        def.1 == cb_definition(byte).1,
        def.1 == 2,
{
    match byte {
        0x00..=0x1F => ("RLC r", 2),
        0x28..=0x2F => ("SRA r", 2),
        0x20..=0x3F => ("SLA r", 2),
        0x40..=0x7F => ("BIT b, r", 2),
        0x80..=0xBF => ("RES b, r", 2),
        0xC0..=0xFF => ("SET b, r", 2),
    }
}

fn ed_def(byte: u8) -> (def: (&'static str, u8))
    ensures
        def.0@ == ed_definition(byte).0,
        def.1 == ed_definition(byte).1,
        1 <= def.1 <= 2,
{
    match byte {
        0xB0 => ("LDIR", 2),
        0x56 => ("IM 1", 2),
        0xA3 => ("OUTI", 2),
        _ => ("Unknown", 1),
    }
}

fn dd_def(byte: u8) -> (def: (&'static str, u8))
    ensures
        def.0@ == dd_definition(byte).0,
        def.1 == dd_definition(byte).1,
        1 <= def.1 <= 4,
{
    match byte {
        0xBE => ("CP (IX+d)", 3),
        0x21 => ("LD IX, nn", 4),
        0xE5 => ("PUSH IX", 2),
        0xE1 => ("POP IX", 2),
        _ => ("Unknown", 1),
    }
}

fn fd_def(byte: u8) -> (def: (&'static str, u8))
    ensures
        def.0@ == fd_definition(byte).0,
        def.1 == fd_definition(byte).1,
        1 <= def.1 <= 4,
{
    match byte {
        0xBE => ("CP (IY+d)", 3),
        0x2A => ("LD IY, (nn)", 4),
        0xE5 => ("PUSH IY", 2),
        0xE1 => ("POP IY", 2),
        _ => ("Unknown", 1),
    }
}

fn plain_def(opcode: u8) -> (def: (&'static str, u8))
    ensures
        def.0@ == plain_definition(opcode).0,
        def.1 == plain_definition(opcode).1,
        1 <= def.1 <= 3,
{
    match opcode {
        0x00 => ("NOP", 1),
        0x01 => ("LD BC, nn", 3),
        0x04 => ("INC B", 1),
        0x05 => ("DEC B", 1),
        0x06 => ("LD B, n", 2),
        0x07 => ("RLCA", 1),
        0x08 => ("EX AF, AF'", 1),
        0x09 => ("ADD HL, BC", 1),
        0x0A => ("LD A, (BC)", 1),
        0x0B => ("DEC BC", 1),
        0x0C => ("INC C", 1),
        0x0D => ("DEC C", 1),
        0x0E => ("LD C, n", 2),
        0x0F => ("RRCA", 1),
        0x10 => ("DJNZ n", 2),
        0x11 => ("LD DE, nn", 3),
        0x12 => ("LD (DE), A", 1),
        0x13 => ("INC DE", 1),
        0x14 => ("INC D", 1),
        0x15 => ("DEC D", 1),
        0x16 => ("LD D, n", 2),
        0x18 => ("JR n", 2),
        0x19 => ("ADD HL, DE", 1),
        0x1A => ("LD A, (DE)", 1),
        0x1B => ("DEC DE", 1),
        0x1C => ("INC E", 1),
        0x1D => ("DEC E", 1),
        0x1E => ("LD E, n", 2),
        0x20 => ("JR NZ, n", 2),
        0x21 => ("LD HL, nn", 3),
        0x22 => ("LD (nn), HL", 3),
        0x23 => ("INC HL", 1),
        0x24 => ("INC H", 1),
        0x25 => ("DEC H", 1),
        0x26 => ("LD H, n", 2),
        0x28 => ("JR Z, n", 2),
        0x29 => ("ADD HL, HL", 1),
        0x2A => ("LD HL, (nn)", 3),
        0x2B => ("DEC HL", 1),
        0x2C => ("INC L", 1),
        0x2D => ("DEC L", 1),
        0x2E => ("LD L, n", 2),
        0x2F => ("CPL", 1),
        0x30 => ("JR NC, n", 2),
        0x31 => ("LD SP, nn", 3),
        0x32 => ("LD (nn), A", 3),
        0x34 => ("INC (HL)", 1),
        0x35 => ("DEC (HL)", 1),
        0x36 => ("LD (HL), n", 2),
        0x37 => ("SCF", 1),
        0x38 => ("JR C, n", 2),
        0x39 => ("ADD HL, SP", 1),
        0x3A => ("LD A, (nn)", 3),
        0x3C => ("INC A", 1),
        0x3D => ("DEC A", 1),
        0x3E => ("LD A, n", 2),
        0x3F => ("CCF", 1),
        0x41 => ("LD B, C", 1),
        0x42 => ("LD B, D", 1),
        0x43 => ("LD B, E", 1),
        0x44 => ("LD B, H", 1),
        0x45 => ("LD B, L", 1),
        0x47 => ("LD B, A", 1),
        0x48 => ("LD C, B", 1),
        0x4A => ("LD C, D", 1),
        0x4B => ("LD C, E", 1),
        0x4C => ("LD C, H", 1),
        0x4D => ("LD C, L", 1),
        0x4F => ("LD C, A", 1),
        0x50 => ("LD D, B", 1),
        0x51 => ("LD D, C", 1),
        0x53 => ("LD D, E", 1),
        0x54 => ("LD D, H", 1),
        0x55 => ("LD D, L", 1),
        0x56 => ("LD D, E", 1),
        0x57 => ("LD D, A", 1),
        0x58 => ("LD E, B", 1),
        0x59 => ("LD E, C", 1),
        0x5A => ("LD E, D", 1),
        0x5C => ("LD E, H", 1),
        0x5D => ("LD E, L", 1),
        0x5E => ("LD E, (HL)", 1),
        0x5F => ("LD E, A", 1),
        0x60 => ("LD H, B", 1),
        0x61 => ("LD H, C", 1),
        0x62 => ("LD H, D", 1),
        0x63 => ("LD H, E", 1),
        0x64 => ("LD H, H", 1),
        0x65 => ("LD H, L", 1),
        0x66 => ("LD H, (HL)", 1),
        0x67 => ("LD H, A", 1),
        0x68 => ("LD L, B", 1),
        0x69 => ("LD L, C", 1),
        0x6A => ("LD L, D", 1),
        0x6B => ("LD L, E", 1),
        0x6C => ("LD L, H", 1),
        0x6F => ("LD L, A", 1),
        0x70 => ("LD (HL), B", 1),
        0x71 => ("LD (HL), C", 1),
        0x72 => ("LD (HL), D", 1),
        0x73 => ("LD (HL), E", 1),
        0x74 => ("LD (HL), H", 1),
        0x75 => ("LD (HL), L", 1),
        0x76 => ("HALT", 1),
        0x77 => ("LD (HL), A", 1),
        0x78 => ("LD A, B", 1),
        0x79 => ("LD A, C", 1),
        0x7A => ("LD A, D", 1),
        0x7B => ("LD A, E", 1),
        0x7C => ("LD A, H", 1),
        0x7D => ("LD A, L", 1),
        0x7E => ("LD A, (HL)", 1),
        0x80 => ("ADD A, B", 1),
        0x81 => ("ADD A, C", 1),
        0x82 => ("ADD A, D", 1),
        0x83 => ("ADD A, E", 1),
        0x84 => ("ADD A, H", 1),
        0x85 => ("ADD A, L", 1),
        0x86 => ("ADD A, (HL)", 1),
        0x87 => ("ADD A, A", 1),
        0x88 => ("ADC A, B", 1),
        0x89 => ("ADC A, C", 1),
        0x8A => ("ADC A, D", 1),
        0x8B => ("ADC A, E", 1),
        0x8C => ("ADC A, H", 1),
        0x8D => ("ADC A, L", 1),
        0x8E => ("ADC A, (HL)", 1),
        0x8F => ("ADC A, A", 1),
        0x90 => ("SUB B", 1),
        0x91 => ("SUB C", 1),
        0x92 => ("SUB D", 1),
        0x93 => ("SUB E", 1),
        0x94 => ("SUB H", 1),
        0x95 => ("SUB L", 1),
        0x96 => ("SUB (HL)", 1),
        0x97 => ("SUB A", 1),
        0x98 => ("SBC A, B", 1),
        0x99 => ("SBC A, C", 1),
        0x9A => ("SBC A, D", 1),
        0x9B => ("SBC A, E", 1),
        0x9C => ("SBC A, H", 1),
        0x9D => ("SBC A, L", 1),
        0x9E => ("SBC A, (HL)", 1),
        0x9F => ("SBC A, A", 1),
        0xA0 => ("AND B", 1),
        0xA1 => ("AND C", 1),
        0xA2 => ("AND D", 1),
        0xA3 => ("AND E", 1),
        0xA4 => ("AND H", 1),
        0xA5 => ("AND L", 1),
        0xA6 => ("AND (HL)", 1),
        0xA7 => ("AND A", 1),
        0xA8 => ("XOR B", 1),
        0xA9 => ("XOR C", 1),
        0xAA => ("XOR D", 1),
        0xAB => ("XOR E", 1),
        0xAC => ("XOR H", 1),
        0xAD => ("XOR L", 1),
        0xAE => ("XOR (HL)", 1),
        0xAF => ("XOR A", 1),
        0xB0 => ("OR B", 1),
        0xB1 => ("OR C", 1),
        0xB2 => ("OR D", 1),
        0xB3 => ("OR E", 1),
        0xB4 => ("OR H", 1),
        0xB5 => ("OR L", 1),
        0xB6 => ("OR (HL)", 1),
        0xB7 => ("OR A", 1),
        0xB8 => ("CP B", 1),
        0xB9 => ("CP C", 1),
        0xBA => ("CP D", 1),
        0xBB => ("CP E", 1),
        0xBC => ("CP H", 1),
        0xBD => ("CP L", 1),
        0xBE => ("CP (HL)", 1),
        0xBF => ("CP A", 1),
        0xC0 => ("RET NZ", 1),
        0xC1 => ("POP BC", 1),
        0xC2 => ("JP NZ, nn", 3),
        0xC3 => ("JP nn", 3),
        0xC5 => ("PUSH BC", 1),
        0xC6 => ("ADD A, n", 2),
        0xC7 => ("RST 00H", 1),
        0xC8 => ("RET Z", 1),
        0xC9 => ("RET", 1),
        0xCA => ("JP Z, nn", 3),
        0xCC => ("CALL Z, nn", 3),
        0xCD => ("CALL nn", 3),
        0xCE => ("ADC A, n", 2),
        0xD0 => ("RET NC", 1),
        0xD1 => ("POP DE", 1),
        0xD2 => ("JP NC, nn", 3),
        0xD3 => ("OUT (n), A", 2),
        0xD5 => ("PUSH DE", 1),
        0xD6 => ("SUB n", 2),
        0xD7 => ("RST 10H", 1),
        0xD8 => ("RET C", 1),
        0xD9 => ("EXX", 1),
        0xDA => ("JP C, nn", 3),
        0xDB => ("IN A, (n)", 2),
        0xDC => ("CALL C, nn", 3),
        0xDE => ("SBC A, n", 2),
        0xDF => ("RST 18H", 1),
        0xE1 => ("POP HL", 1),
        0xE3 => ("EX (SP), HL", 1),
        0xE5 => ("PUSH HL", 1),
        0xE6 => ("AND n", 2),
        0xE7 => ("RST 20H", 1),
        0xEB => ("EX DE, HL", 1),
        0xEE => ("XOR n", 2),
        0xF0 => ("RET P", 1),
        0xF1 => ("POP AF", 1),
        0xF2 => ("JP P, nn", 3),
        0xF3 => ("DI", 1),
        0xF5 => ("PUSH AF", 1),
        0xF6 => ("OR n", 2),
        0xF8 => ("RET M", 1),
        0xF9 => ("LD SP, HL", 1),
        0xFA => ("JP M, nn", 3),
        0xFB => ("EI", 1),
        0xFE => ("CP n", 2),
        0xFF => ("RST 38H", 1),
        _ => ("Unknown", 1),
    }
}

/// The addresses of a listing from `pc` on, of at most `limit` instructions:
/// each instruction starts where the one before it ends. The listing stops
/// before the last address of the address space, and where an instruction
/// reaches beyond it.
pub open spec fn listing_addresses(memory: MemoryState, pc: u16, limit: nat) -> Seq<u16>
    decreases limit,
{
    if limit == 0 || pc == 0xFFFF {
        Seq::empty()
    } else {
        let length = definition(memory.read_byte(pc), memory.read_byte(pc.wrapping_add(1))).1;
        if pc + length > 0xFFFF {
            seq![pc]
        } else {
            seq![pc] + listing_addresses(memory, (pc + length) as u16, (limit - 1) as nat)
        }
    }
}

/// The instructions from `pc` on, at most `limit` of them.
pub fn disassemble(memory: &Memory, pc: u16, limit: usize) -> (listing: Vec<Instruction>)
    ensures
        listing@.len() == listing_addresses(memory@, pc, limit as nat).len(),
        forall|i: int|
            0 <= i < listing@.len() ==> (#[trigger] listing@[i]).is_at(
                memory@,
                listing_addresses(memory@, pc, limit as nat)[i],
            ),
{
    let mut listing: Vec<Instruction> = Vec::new();
    let mut at = pc;
    let mut left = limit;
    let ghost all = listing_addresses(memory@, pc, limit as nat);
    assert(Seq::<u16>::empty() + all =~= all);
    loop
        invariant_except_break
            all == listing_addresses(memory@, pc, limit as nat),
            listing@.len() + listing_addresses(memory@, at, left as nat).len() == all.len(),
            forall|i: int|
                0 <= i < listing@.len() ==> (#[trigger] listing@[i]).is_at(memory@, all[i]),
            forall|i: int|
                0 <= i < listing_addresses(memory@, at, left as nat).len() ==> all[listing@.len()
                    + i] == listing_addresses(memory@, at, left as nat)[i],
        ensures
            all == listing_addresses(memory@, pc, limit as nat),
            listing@.len() == all.len(),
            forall|i: int|
                0 <= i < listing@.len() ==> (#[trigger] listing@[i]).is_at(memory@, all[i]),
        decreases left,
    {
        if left == 0 || at == 0xFFFF {
            break ;
        }
        let instruction = Instruction::parse(memory, at);
        let length = instruction.len();
        let ghost rest = listing_addresses(memory@, at, left as nat);
        assert(rest[0] == at);
        listing.push(instruction);
        if at as u32 + length as u32 > 0xFFFF {
            assert(rest.len() == 1);
            break ;
        }
        let ghost tail = listing_addresses(memory@, (at + length) as u16, (left - 1) as nat);
        assert(rest =~= seq![at] + tail);
        assert forall|i: int| 0 <= i < tail.len() implies all[listing@.len() + i] == tail[i] by {
            assert(rest[i + 1] == tail[i]);
        }
        at = at + length as u16;
        left = left - 1;
    }
    listing
}

/// The disassembler and the processor agree on lengths: an instruction that
/// the processor decodes has, in the disassembler, the length by which the
/// processor moves the program counter past it.
pub proof fn lemma_lengths_agree(b0: u8, b1: u8, b2: u8)
    ensures
        match decode(b0, b1, b2) {
            Some(op) => definition(b0, b1).1 == op.length(),
            None => true,
        },
{
}

} // verus!
