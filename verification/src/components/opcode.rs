//! The instructions of this core and how bytes decode into them.
//!
//! An opcode byte splits into three fields: the top two bits, then `y` (bits
//! 3 to 5) and `z` (bits 0 to 2). Registers are numbered 0 = B, 1 = C, 2 = D,
//! 3 = E, 4 = H, 5 = L, 6 = the byte at (HL), 7 = A.

use vstd::prelude::*;
use crate::bits::{make_word, word_of};
use super::alu::AluOp;

verus! {

/// An 8-bit operand: a register, or the byte of memory that HL points to.
#[derive(Clone, Copy, Debug, PartialEq, Eq, Structural)]
pub enum Reg8 {
    B,
    C,
    D,
    E,
    H,
    L,
    HlRef,
    A,
}

/// A 16-bit register of the load and arithmetic group.
#[derive(Clone, Copy, Debug, PartialEq, Eq, Structural)]
pub enum Pair {
    BC,
    DE,
    HL,
    SP,
}

/// A register pair that can be pushed and popped.
#[derive(Clone, Copy, Debug, PartialEq, Eq, Structural)]
pub enum StackPair {
    BC,
    DE,
    HL,
    AF,
}

/// A branch condition.
#[derive(Clone, Copy, Debug, PartialEq, Eq, Structural)]
pub enum Cond {
    /// Z clear.
    NZ,
    /// Z set.
    Z,
    /// C clear.
    NC,
    /// C set.
    C,
    /// S clear: plus.
    P,
    /// S set: minus.
    M,
}

/// One instruction, with its immediate operands.
#[derive(Clone, Copy, Debug, PartialEq, Eq, Structural)]
#[allow(inconsistent_fields)]
pub enum Op {
    Nop,
    /// `LD dst,src`, between registers or between a register and (HL).
    Ld { dst: Reg8, src: Reg8 },
    /// `LD dst,n`.
    LdImm { dst: Reg8, value: u8 },
    /// `LD A,(BC)`.
    LdAFromBc,
    /// `LD A,(DE)`.
    LdAFromDe,
    /// `LD A,(nn)`.
    LdAFromAddr { addr: u16 },
    /// `LD (DE),A`.
    LdDeFromA,
    /// `LD (nn),A`.
    LdAddrFromA { addr: u16 },
    /// `LD (nn),HL`.
    LdAddrFromHl { addr: u16 },
    /// `LD HL,(nn)`.
    LdHlFromAddr { addr: u16 },
    /// `LD rr,nn`.
    LdPair { pair: Pair, value: u16 },
    /// `LD SP,HL`.
    LdSpHl,
    Inc { reg: Reg8 },
    Dec { reg: Reg8 },
    IncPair { pair: Pair },
    DecPair { pair: Pair },
    /// An operation between A and a register or (HL).
    Alu { op: AluOp, src: Reg8 },
    /// An operation between A and an immediate byte.
    AluImm { op: AluOp, value: u8 },
    /// `ADD HL,rr`.
    AddHl { pair: Pair },
    Cpl,
    Ccf,
    Scf,
    Rlca,
    Rrca,
    Jp { target: u16 },
    JpIf { cond: Cond, target: u16 },
    Jr { offset: u8 },
    JrIf { cond: Cond, offset: u8 },
    Djnz { offset: u8 },
    Call { target: u16 },
    CallIf { cond: Cond, target: u16 },
    Ret,
    RetIf { cond: Cond },
    Push { pair: StackPair },
    Pop { pair: StackPair },
    /// `EX DE,HL`.
    ExDeHl,
    /// `EX (SP),HL`.
    ExSpHl,
    Exx,
    Halt,
    /// `IN A,(n)`.
    In { port: u8 },
    /// `OUT (n),A`.
    Out { port: u8 },
    /// `RST` to the fixed address `vector`.
    Rst { vector: u8 },
    Ei,
    Di,
    Rlc { reg: Reg8 },
    Sla { reg: Reg8 },
    Sra { reg: Reg8 },
    Bit { bit: u8, reg: Reg8 },
    ResBit { bit: u8, reg: Reg8 },
    SetBit { bit: u8, reg: Reg8 },
    Ldir,
    /// `IM 1`.
    Im1,
    Outi,
    /// `CP (IX+d)`.
    CpIx { offset: u8 },
    /// `CP (IY+d)`.
    CpIy { offset: u8 },
}

/// The groups of the instruction set.
#[derive(Clone, Copy, Debug, PartialEq, Eq, Structural)]
pub enum OpGroup {
    /// Loads between registers, memory and immediates.
    Load,
    /// Arithmetic and logic on A, on registers and on register pairs.
    Arithmetic,
    /// Jumps, calls, returns and restarts.
    Flow,
    /// Stack, exchanges, I/O, halt and interrupt control.
    System,
    /// Rotates, shifts, bit operations and block instructions.
    Bits,
}

/// The `y` field of an opcode byte: bits 3 to 5.
pub open spec fn field_y(byte: u8) -> u8 {
    ((byte / 8) % 8) as u8
}

/// The `z` field of an opcode byte: bits 0 to 2.
pub open spec fn field_z(byte: u8) -> u8 {
    (byte % 8) as u8
}

/// The 8-bit operand with number `index`.
pub open spec fn reg8_of(index: u8) -> Reg8 {
    if index == 0 {
        Reg8::B
    } else if index == 1 {
        Reg8::C
    } else if index == 2 {
        Reg8::D
    } else if index == 3 {
        Reg8::E
    } else if index == 4 {
        Reg8::H
    } else if index == 5 {
        Reg8::L
    } else if index == 6 {
        Reg8::HlRef
    } else {
        Reg8::A
    }
}

/// The 16-bit register with number `index`: 0 = BC, 1 = DE, 2 = HL, 3 = SP.
pub open spec fn pair_of(index: u8) -> Pair {
    if index == 0 {
        Pair::BC
    } else if index == 1 {
        Pair::DE
    } else if index == 2 {
        Pair::HL
    } else {
        Pair::SP
    }
}

/// The stack pair with number `index`: 0 = BC, 1 = DE, 2 = HL, 3 = AF.
pub open spec fn stack_pair_of(index: u8) -> StackPair {
    if index == 0 {
        StackPair::BC
    } else if index == 1 {
        StackPair::DE
    } else if index == 2 {
        StackPair::HL
    } else {
        StackPair::AF
    }
}

/// The operation with number `index`, in the order ADD, ADC, SUB, SBC, AND,
/// XOR, OR, CP.
pub open spec fn alu_op_of(index: u8) -> AluOp {
    if index == 0 {
        AluOp::Add
    } else if index == 1 {
        AluOp::Adc
    } else if index == 2 {
        AluOp::Sub
    } else if index == 3 {
        AluOp::Sbc
    } else if index == 4 {
        AluOp::And
    } else if index == 5 {
        AluOp::Xor
    } else if index == 6 {
        AluOp::Or
    } else {
        AluOp::Cp
    }
}

/// The condition with number `index`, where this core has one: 0 = NZ,
/// 1 = Z, 2 = NC, 3 = C, 6 = P, 7 = M.
pub open spec fn cond_of(index: u8) -> Option<Cond> {
    if index == 0 {
        Some(Cond::NZ)
    } else if index == 1 {
        Some(Cond::Z)
    } else if index == 2 {
        Some(Cond::NC)
    } else if index == 3 {
        Some(Cond::C)
    } else if index == 6 {
        Some(Cond::P)
    } else if index == 7 {
        Some(Cond::M)
    } else {
        None
    }
}

/// The instruction that the byte `byte` after a `CB` prefix names. Every byte
/// names one: `00..1F` rotate left circular, `20..27` and `30..3F` shift left,
/// `28..2F` shift right, then test, reset and set of bit `y`.
pub open spec fn decode_cb(byte: u8) -> Op {
    let reg = reg8_of(field_z(byte));
    if byte < 0x20 {
        Op::Rlc { reg }
    } else if byte < 0x28 {
        Op::Sla { reg }
    } else if byte < 0x30 {
        Op::Sra { reg }
    } else if byte < 0x40 {
        Op::Sla { reg }
    } else if byte < 0x80 {
        Op::Bit { bit: field_y(byte), reg }
    } else if byte < 0xC0 {
        Op::ResBit { bit: field_y(byte), reg }
    } else {
        Op::SetBit { bit: field_y(byte), reg }
    }
}

/// The instruction that the byte `byte` after an `ED` prefix names.
pub open spec fn decode_ed(byte: u8) -> Option<Op> {
    if byte == 0xB0 {
        Some(Op::Ldir)
    } else if byte == 0x56 {
        Some(Op::Im1)
    } else if byte == 0xA3 {
        Some(Op::Outi)
    } else {
        None
    }
}

/// The instruction that an opcode byte below `0x40` names, with `n` the byte
/// after it and `nn` the word after it.
pub open spec fn decode_low(byte: u8, n: u8, nn: u16) -> Option<Op> {
    let y = field_y(byte);
    let z = field_z(byte);
    if z == 4 {
        Some(Op::Inc { reg: reg8_of(y) })
    } else if z == 5 {
        Some(Op::Dec { reg: reg8_of(y) })
    } else if z == 6 {
        Some(Op::LdImm { dst: reg8_of(y), value: n })
    } else if z == 1 && y % 2 == 0 {
        Some(Op::LdPair { pair: pair_of(y / 2), value: nn })
    } else if z == 1 {
        Some(Op::AddHl { pair: pair_of(y / 2) })
    } else if z == 3 && y < 6 {
        if y % 2 == 0 {
            Some(Op::IncPair { pair: pair_of(y / 2) })
        } else {
            Some(Op::DecPair { pair: pair_of(y / 2) })
        }
    } else if byte == 0x00 {
        Some(Op::Nop)
    } else if byte == 0x10 {
        Some(Op::Djnz { offset: n })
    } else if byte == 0x18 {
        Some(Op::Jr { offset: n })
    } else if byte == 0x20 {
        Some(Op::JrIf { cond: Cond::NZ, offset: n })
    } else if byte == 0x28 {
        Some(Op::JrIf { cond: Cond::Z, offset: n })
    } else if byte == 0x30 {
        Some(Op::JrIf { cond: Cond::NC, offset: n })
    } else if byte == 0x38 {
        Some(Op::JrIf { cond: Cond::C, offset: n })
    } else if byte == 0x12 {
        Some(Op::LdDeFromA)
    } else if byte == 0x22 {
        Some(Op::LdAddrFromHl { addr: nn })
    } else if byte == 0x32 {
        Some(Op::LdAddrFromA { addr: nn })
    } else if byte == 0x0A {
        Some(Op::LdAFromBc)
    } else if byte == 0x1A {
        Some(Op::LdAFromDe)
    } else if byte == 0x2A {
        Some(Op::LdHlFromAddr { addr: nn })
    } else if byte == 0x3A {
        Some(Op::LdAFromAddr { addr: nn })
    } else if byte == 0x07 {
        Some(Op::Rlca)
    } else if byte == 0x0F {
        Some(Op::Rrca)
    } else if byte == 0x2F {
        Some(Op::Cpl)
    } else if byte == 0x37 {
        Some(Op::Scf)
    } else if byte == 0x3F {
        Some(Op::Ccf)
    } else {
        None
    }
}

/// The instruction that an opcode byte from `0xC0` up names, prefixes apart,
/// with `n` the byte after it and `nn` the word after it.
pub open spec fn decode_high(byte: u8, n: u8, nn: u16) -> Option<Op> {
    let y = field_y(byte);
    let z = field_z(byte);
    if z == 0 {
        match cond_of(y) {
            Some(cond) => Some(Op::RetIf { cond }),
            None => None,
        }
    } else if z == 2 {
        match cond_of(y) {
            Some(cond) => Some(Op::JpIf { cond, target: nn }),
            None => None,
        }
    } else if z == 6 {
        Some(Op::AluImm { op: alu_op_of(y), value: n })
    } else if z == 1 && y % 2 == 0 {
        Some(Op::Pop { pair: stack_pair_of(y / 2) })
    } else if z == 5 && y % 2 == 0 {
        Some(Op::Push { pair: stack_pair_of(y / 2) })
    } else if byte == 0xC3 {
        Some(Op::Jp { target: nn })
    } else if byte == 0xC9 {
        Some(Op::Ret)
    } else if byte == 0xCD {
        Some(Op::Call { target: nn })
    } else if byte == 0xCC {
        Some(Op::CallIf { cond: Cond::Z, target: nn })
    } else if byte == 0xDC {
        Some(Op::CallIf { cond: Cond::C, target: nn })
    } else if byte == 0xD3 {
        Some(Op::Out { port: n })
    } else if byte == 0xDB {
        Some(Op::In { port: n })
    } else if byte == 0xD7 {
        Some(Op::Rst { vector: 0x10 })
    } else if byte == 0xE7 {
        Some(Op::Rst { vector: 0x20 })
    } else if byte == 0xFF {
        Some(Op::Rst { vector: 0x38 })
    } else if byte == 0xD9 {
        Some(Op::Exx)
    } else if byte == 0xE3 {
        Some(Op::ExSpHl)
    } else if byte == 0xEB {
        Some(Op::ExDeHl)
    } else if byte == 0xF3 {
        Some(Op::Di)
    } else if byte == 0xFB {
        Some(Op::Ei)
    } else if byte == 0xF9 {
        Some(Op::LdSpHl)
    } else {
        None
    }
}

/// The instruction that starts with the bytes `b0`, `b1`, `b2`, or `None`
/// where they start none of this core.
pub open spec fn decode(b0: u8, b1: u8, b2: u8) -> Option<Op> {
    if b0 == 0xCB {
        Some(decode_cb(b1))
    } else if b0 == 0xED {
        decode_ed(b1)
    } else if b0 == 0xDD {
        if b1 == 0xBE {
            Some(Op::CpIx { offset: b2 })
        } else {
            None
        }
    } else if b0 == 0xFD {
        if b1 == 0xBE {
            Some(Op::CpIy { offset: b2 })
        } else {
            None
        }
    } else if b0 < 0x40 {
        decode_low(b0, b1, word_of(b1, b2))
    } else if b0 == 0x76 {
        Some(Op::Halt)
    } else if b0 < 0x80 {
        Some(Op::Ld { dst: reg8_of(field_y(b0)), src: reg8_of(field_z(b0)) })
    } else if b0 < 0xC0 {
        Some(Op::Alu { op: alu_op_of(field_y(b0)), src: reg8_of(field_z(b0)) })
    } else {
        decode_high(b0, b1, word_of(b1, b2))
    }
}

/// Whether `byte` opens a two-byte opcode.
pub open spec fn is_prefix(byte: u8) -> bool {
    byte == 0xCB || byte == 0xED || byte == 0xDD || byte == 0xFD
}

impl Op {
    /// The group that the instruction belongs to.
    pub open spec fn group(self) -> OpGroup {
        match self {
            Op::Nop | Op::Ld { .. } | Op::LdImm { .. } | Op::LdAFromBc | Op::LdAFromDe
            | Op::LdAFromAddr { .. } | Op::LdDeFromA | Op::LdAddrFromA { .. } | Op::LdAddrFromHl {
                ..
            } | Op::LdHlFromAddr { .. } | Op::LdPair { .. } | Op::LdSpHl => OpGroup::Load,
            Op::Inc { .. } | Op::Dec { .. } | Op::IncPair { .. } | Op::DecPair { .. } | Op::Alu {
                ..
            } | Op::AluImm { .. } | Op::AddHl { .. } | Op::Cpl | Op::Ccf | Op::Scf | Op::Rlca
            | Op::Rrca | Op::CpIx { .. } | Op::CpIy { .. } => OpGroup::Arithmetic,
            Op::Jp { .. } | Op::JpIf { .. } | Op::Jr { .. } | Op::JrIf { .. } | Op::Djnz { .. }
            | Op::Call { .. } | Op::CallIf { .. } | Op::Ret | Op::RetIf { .. } | Op::Rst {
                ..
            } => OpGroup::Flow,
            Op::Push { .. } | Op::Pop { .. } | Op::ExDeHl | Op::ExSpHl | Op::Exx | Op::Halt
            | Op::In { .. } | Op::Out { .. } | Op::Ei | Op::Di | Op::Im1 => OpGroup::System,
            Op::Rlc { .. } | Op::Sla { .. } | Op::Sra { .. } | Op::Bit { .. } | Op::ResBit { .. }
            | Op::SetBit { .. } | Op::Ldir | Op::Outi => OpGroup::Bits,
        }
    }

    pub fn group_of(&self) -> (group: OpGroup)
        ensures
            group == self.group(),
    {
        match self {
            Op::Nop | Op::Ld { .. } | Op::LdImm { .. } | Op::LdAFromBc | Op::LdAFromDe
            | Op::LdAFromAddr { .. } | Op::LdDeFromA | Op::LdAddrFromA { .. } | Op::LdAddrFromHl {
                ..
            } | Op::LdHlFromAddr { .. } | Op::LdPair { .. } | Op::LdSpHl => OpGroup::Load,
            Op::Inc { .. } | Op::Dec { .. } | Op::IncPair { .. } | Op::DecPair { .. } | Op::Alu {
                ..
            } | Op::AluImm { .. } | Op::AddHl { .. } | Op::Cpl | Op::Ccf | Op::Scf | Op::Rlca
            | Op::Rrca | Op::CpIx { .. } | Op::CpIy { .. } => OpGroup::Arithmetic,
            Op::Jp { .. } | Op::JpIf { .. } | Op::Jr { .. } | Op::JrIf { .. } | Op::Djnz { .. }
            | Op::Call { .. } | Op::CallIf { .. } | Op::Ret | Op::RetIf { .. } | Op::Rst {
                ..
            } => OpGroup::Flow,
            Op::Push { .. } | Op::Pop { .. } | Op::ExDeHl | Op::ExSpHl | Op::Exx | Op::Halt
            | Op::In { .. } | Op::Out { .. } | Op::Ei | Op::Di | Op::Im1 => OpGroup::System,
            Op::Rlc { .. } | Op::Sla { .. } | Op::Sra { .. } | Op::Bit { .. } | Op::ResBit { .. }
            | Op::SetBit { .. } | Op::Ldir | Op::Outi => OpGroup::Bits,
        }
    }

    /// The number of bytes that the instruction takes in memory.
    pub open spec fn length(self) -> u8 {
        match self {
            Op::LdImm { .. } | Op::AluImm { .. } | Op::Jr { .. } | Op::JrIf { .. } | Op::Djnz {
                ..
            } | Op::In { .. } | Op::Out { .. } | Op::Rlc { .. } | Op::Sla { .. } | Op::Sra {
                ..
            } | Op::Bit { .. } | Op::ResBit { .. } | Op::SetBit { .. } | Op::Ldir | Op::Im1
            | Op::Outi => 2,
            Op::LdAFromAddr { .. } | Op::LdAddrFromA { .. } | Op::LdAddrFromHl { .. }
            | Op::LdHlFromAddr { .. } | Op::LdPair { .. } | Op::Jp { .. } | Op::JpIf { .. }
            | Op::Call { .. } | Op::CallIf { .. } | Op::CpIx { .. } | Op::CpIy { .. } => 3,
            _ => 1,
        }
    }

    pub fn len(&self) -> (length: u8)
        ensures
            length == self.length(),
            1 <= length <= 3,
    {
        match self {
            Op::LdImm { .. } | Op::AluImm { .. } | Op::Jr { .. } | Op::JrIf { .. } | Op::Djnz {
                ..
            } | Op::In { .. } | Op::Out { .. } | Op::Rlc { .. } | Op::Sla { .. } | Op::Sra {
                ..
            } | Op::Bit { .. } | Op::ResBit { .. } | Op::SetBit { .. } | Op::Ldir | Op::Im1
            | Op::Outi => 2,
            Op::LdAFromAddr { .. } | Op::LdAddrFromA { .. } | Op::LdAddrFromHl { .. }
            | Op::LdHlFromAddr { .. } | Op::LdPair { .. } | Op::Jp { .. } | Op::JpIf { .. }
            | Op::Call { .. } | Op::CallIf { .. } | Op::CpIx { .. } | Op::CpIy { .. } => 3,
            _ => 1,
        }
    }
}

pub fn reg8_from_index(index: u8) -> (reg: Reg8)
    ensures
        reg == reg8_of(index),
{
    match index {
        0 => Reg8::B,
        1 => Reg8::C,
        2 => Reg8::D,
        3 => Reg8::E,
        4 => Reg8::H,
        5 => Reg8::L,
        6 => Reg8::HlRef,
        _ => Reg8::A,
    }
}

pub fn pair_from_index(index: u8) -> (pair: Pair)
    ensures
        pair == pair_of(index),
{
    match index {
        0 => Pair::BC,
        1 => Pair::DE,
        2 => Pair::HL,
        _ => Pair::SP,
    }
}

pub fn stack_pair_from_index(index: u8) -> (pair: StackPair)
    ensures
        pair == stack_pair_of(index),
{
    match index {
        0 => StackPair::BC,
        1 => StackPair::DE,
        2 => StackPair::HL,
        _ => StackPair::AF,
    }
}

pub fn alu_op_from_index(index: u8) -> (op: AluOp)
    ensures
        op == alu_op_of(index),
{
    match index {
        0 => AluOp::Add,
        1 => AluOp::Adc,
        2 => AluOp::Sub,
        3 => AluOp::Sbc,
        4 => AluOp::And,
        5 => AluOp::Xor,
        6 => AluOp::Or,
        _ => AluOp::Cp,
    }
}

pub fn cond_from_index(index: u8) -> (cond: Option<Cond>)
    ensures
        cond == cond_of(index),
{
    match index {
        0 => Some(Cond::NZ),
        1 => Some(Cond::Z),
        2 => Some(Cond::NC),
        3 => Some(Cond::C),
        6 => Some(Cond::P),
        7 => Some(Cond::M),
        _ => None,
    }
}

pub fn decode_cb_byte(byte: u8) -> (op: Op)
    ensures
        op == decode_cb(byte),
{
    let reg = reg8_from_index(byte % 8);
    let bit: u8 = (byte / 8) % 8;
    match byte {
        0x00..=0x1F => Op::Rlc { reg },
        0x20..=0x27 => Op::Sla { reg },
        0x28..=0x2F => Op::Sra { reg },
        0x30..=0x3F => Op::Sla { reg },
        0x40..=0x7F => Op::Bit { bit, reg },
        0x80..=0xBF => Op::ResBit { bit, reg },
        0xC0..=0xFF => Op::SetBit { bit, reg },
    }
}

pub fn decode_ed_byte(byte: u8) -> (op: Option<Op>)
    ensures
        op == decode_ed(byte),
{
    match byte {
        0xB0 => Some(Op::Ldir),
        0x56 => Some(Op::Im1),
        0xA3 => Some(Op::Outi),
        _ => None,
    }
}

fn decode_low_byte(byte: u8, n: u8, nn: u16) -> (op: Option<Op>)
    requires
        byte < 0x40,
    ensures
        op == decode_low(byte, n, nn),
{
    let y: u8 = (byte / 8) % 8;
    match byte {
        0x00 => Some(Op::Nop),
        0x01 | 0x11 | 0x21 | 0x31 => Some(Op::LdPair { pair: pair_from_index(y / 2), value: nn }),
        0x09 | 0x19 | 0x29 | 0x39 => Some(Op::AddHl { pair: pair_from_index(y / 2) }),
        0x03 | 0x13 | 0x23 => Some(Op::IncPair { pair: pair_from_index(y / 2) }),
        0x0B | 0x1B | 0x2B => Some(Op::DecPair { pair: pair_from_index(y / 2) }),
        0x04 | 0x0C | 0x14 | 0x1C | 0x24 | 0x2C | 0x34 | 0x3C => Some(
            Op::Inc { reg: reg8_from_index(y) },
        ),
        0x05 | 0x0D | 0x15 | 0x1D | 0x25 | 0x2D | 0x35 | 0x3D => Some(
            Op::Dec { reg: reg8_from_index(y) },
        ),
        0x06 | 0x0E | 0x16 | 0x1E | 0x26 | 0x2E | 0x36 | 0x3E => Some(
            Op::LdImm { dst: reg8_from_index(y), value: n },
        ),
        0x07 => Some(Op::Rlca),
        0x0F => Some(Op::Rrca),
        0x0A => Some(Op::LdAFromBc),
        0x1A => Some(Op::LdAFromDe),
        0x12 => Some(Op::LdDeFromA),
        0x10 => Some(Op::Djnz { offset: n }),
        0x18 => Some(Op::Jr { offset: n }),
        0x20 => Some(Op::JrIf { cond: Cond::NZ, offset: n }),
        0x28 => Some(Op::JrIf { cond: Cond::Z, offset: n }),
        0x30 => Some(Op::JrIf { cond: Cond::NC, offset: n }),
        0x38 => Some(Op::JrIf { cond: Cond::C, offset: n }),
        0x22 => Some(Op::LdAddrFromHl { addr: nn }),
        0x2A => Some(Op::LdHlFromAddr { addr: nn }),
        0x32 => Some(Op::LdAddrFromA { addr: nn }),
        0x3A => Some(Op::LdAFromAddr { addr: nn }),
        0x2F => Some(Op::Cpl),
        0x37 => Some(Op::Scf),
        0x3F => Some(Op::Ccf),
        _ => None,
    }
}

fn decode_high_byte(byte: u8, n: u8, nn: u16) -> (op: Option<Op>)
    requires
        byte >= 0xC0,
        !is_prefix(byte),
    ensures
        op == decode_high(byte, n, nn),
{
    let y: u8 = (byte / 8) % 8;
    match byte {
        0xC0 | 0xC8 | 0xD0 | 0xD8 | 0xF0 | 0xF8 => match cond_from_index(y) {
            Some(cond) => Some(Op::RetIf { cond }),
            None => None,
        },
        0xC2 | 0xCA | 0xD2 | 0xDA | 0xF2 | 0xFA => match cond_from_index(y) {
            Some(cond) => Some(Op::JpIf { cond, target: nn }),
            None => None,
        },
        0xC6 | 0xCE | 0xD6 | 0xDE | 0xE6 | 0xEE | 0xF6 | 0xFE => Some(
            Op::AluImm { op: alu_op_from_index(y), value: n },
        ),
        0xC1 | 0xD1 | 0xE1 | 0xF1 => Some(Op::Pop { pair: stack_pair_from_index(y / 2) }),
        0xC5 | 0xD5 | 0xE5 | 0xF5 => Some(Op::Push { pair: stack_pair_from_index(y / 2) }),
        0xC3 => Some(Op::Jp { target: nn }),
        0xC9 => Some(Op::Ret),
        0xCD => Some(Op::Call { target: nn }),
        0xCC => Some(Op::CallIf { cond: Cond::Z, target: nn }),
        0xDC => Some(Op::CallIf { cond: Cond::C, target: nn }),
        0xD3 => Some(Op::Out { port: n }),
        0xDB => Some(Op::In { port: n }),
        0xD7 => Some(Op::Rst { vector: 0x10 }),
        0xE7 => Some(Op::Rst { vector: 0x20 }),
        0xFF => Some(Op::Rst { vector: 0x38 }),
        0xD9 => Some(Op::Exx),
        0xE3 => Some(Op::ExSpHl),
        0xEB => Some(Op::ExDeHl),
        0xF3 => Some(Op::Di),
        0xFB => Some(Op::Ei),
        0xF9 => Some(Op::LdSpHl),
        _ => None,
    }
}

/// Decodes the instruction that starts with `b0`, `b1`, `b2`.
pub fn decode_bytes(b0: u8, b1: u8, b2: u8) -> (op: Option<Op>)
    ensures
        op == decode(b0, b1, b2),
{
    if b0 == 0xCB {
        Some(decode_cb_byte(b1))
    } else if b0 == 0xED {
        decode_ed_byte(b1)
    } else if b0 == 0xDD {
        if b1 == 0xBE {
            Some(Op::CpIx { offset: b2 })
        } else {
            None
        }
    } else if b0 == 0xFD {
        if b1 == 0xBE {
            Some(Op::CpIy { offset: b2 })
        } else {
            None
        }
    } else if b0 < 0x40 {
        decode_low_byte(b0, b1, make_word(b1, b2))
    } else if b0 == 0x76 {
        Some(Op::Halt)
    } else if b0 < 0x80 {
        Some(Op::Ld { dst: reg8_from_index((b0 / 8) % 8), src: reg8_from_index(b0 % 8) })
    } else if b0 < 0xC0 {
        Some(Op::Alu { op: alu_op_from_index((b0 / 8) % 8), src: reg8_from_index(b0 % 8) })
    } else {
        decode_high_byte(b0, b1, make_word(b1, b2))
    }
}

} // verus!
