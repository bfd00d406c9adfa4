//! The Z80 as a mathematical value, and what each instruction makes of it.

use vstd::prelude::*;
use crate::bits::{displaced, high_byte, low_byte, word_of};
use crate::error::MachineError;
use super::alu::{
    add16_flags, add16_value, alu_outcome, bit_test_flags, dec_flags, inc_flags, rlc_outcome,
    rotated_left, rotated_right, sla_outcome, sra_outcome, AluOp, AluOutcome,
};
use super::bus::BusState;
use super::flags::{flag_is_set, pack_flags, unpack_flags, with_flag, Flag, FlagSet};
use super::memory::{MemoryState, WriteMode};
use super::opcode::{decode, is_prefix, Cond, Op, OpGroup, Pair, Reg8, StackPair};

verus! {

/// The address that an accepted interrupt jumps to.
pub const INTERRUPT_VECTOR: u16 = 0x0038;

/// The processor with its memory and its bus, as a mathematical value.
#[verifier::ext_equal]
pub struct Z80State {
    pub a: u8,
    pub f: u8,
    pub b: u8,
    pub c: u8,
    pub d: u8,
    pub e: u8,
    pub h: u8,
    pub l: u8,
    pub b_alt: u8,
    pub c_alt: u8,
    pub d_alt: u8,
    pub e_alt: u8,
    pub h_alt: u8,
    pub l_alt: u8,
    pub sp: u16,
    pub pc: u16,
    pub ix: u16,
    pub iy: u16,
    pub iff1: bool,
    pub iff2: bool,
    pub im: u8,
    pub interrupt_request: bool,
    pub halted: bool,
    pub memory: MemoryState,
    pub bus: BusState,
    pub max_cycles: Option<u64>,
    pub cycles: u64,
    pub faithful_outi: bool,
}

/// What an instruction makes of the state, or why it fails.
pub type Outcome = Result<Z80State, MachineError>;

/// `outcome` with the program counter at `pc`, where it is a state.
pub open spec fn then_at(outcome: Outcome, pc: u16) -> Outcome {
    match outcome {
        Ok(state) => Ok(state.at(pc)),
        Err(error) => Err(error),
    }
}

/// `outcome` with the flag register at `f`, where it is a state.
pub open spec fn then_flags(outcome: Outcome, f: u8) -> Outcome {
    match outcome {
        Ok(state) => Ok(Z80State { f, ..state }),
        Err(error) => Err(error),
    }
}

/// A fallible operation did what `expected` says: on success the state is the
/// expected one; on failure the error is the expected one and the state is as
/// it was before.
pub open spec fn retires(
    before: Z80State,
    expected: Outcome,
    result: Result<(), MachineError>,
    after: Z80State,
) -> bool {
    match expected {
        Ok(state) => result.is_ok() && after == state,
        Err(error) => result == Err::<(), MachineError>(error) && after == before,
    }
}

impl Z80State {
    /// Whether `other` has the step counter and the configuration of this
    /// state.
    pub open spec fn same_settings(self, other: Z80State) -> bool {
        &&& other.cycles == self.cycles
        &&& other.max_cycles == self.max_cycles
        &&& other.faithful_outi == self.faithful_outi
        &&& other.memory.mode == self.memory.mode
    }

    /// Whether the memory spans the whole address space.
    pub open spec fn wf(self) -> bool {
        self.memory.wf()
    }

    /// The pair AF: A is the high byte.
    pub open spec fn af(self) -> u16 {
        word_of(self.f, self.a)
    }

    /// The pair BC: B is the high byte.
    pub open spec fn bc(self) -> u16 {
        word_of(self.c, self.b)
    }

    /// The pair DE: D is the high byte.
    pub open spec fn de(self) -> u16 {
        word_of(self.e, self.d)
    }

    /// The pair HL: H is the high byte.
    pub open spec fn hl(self) -> u16 {
        word_of(self.l, self.h)
    }

    /// The state with `value` in AF: both halves change together.
    pub open spec fn with_af(self, value: u16) -> Z80State {
        Z80State { a: high_byte(value), f: low_byte(value), ..self }
    }

    /// The state with `value` in BC.
    pub open spec fn with_bc(self, value: u16) -> Z80State {
        Z80State { b: high_byte(value), c: low_byte(value), ..self }
    }

    /// The state with `value` in DE.
    pub open spec fn with_de(self, value: u16) -> Z80State {
        Z80State { d: high_byte(value), e: low_byte(value), ..self }
    }

    /// The state with `value` in HL.
    pub open spec fn with_hl(self, value: u16) -> Z80State {
        Z80State { h: high_byte(value), l: low_byte(value), ..self }
    }

    /// The value of a 16-bit register.
    pub open spec fn pair(self, pair: Pair) -> u16 {
        match pair {
            Pair::BC => self.bc(),
            Pair::DE => self.de(),
            Pair::HL => self.hl(),
            Pair::SP => self.sp,
        }
    }

    /// The state with `value` in a 16-bit register.
    #[verifier::opaque]
    pub open spec fn with_pair(self, pair: Pair, value: u16) -> Z80State {
        match pair {
            Pair::BC => self.with_bc(value),
            Pair::DE => self.with_de(value),
            Pair::HL => self.with_hl(value),
            Pair::SP => Z80State { sp: value, ..self },
        }
    }

    /// The value of a pair that can be pushed.
    pub open spec fn stack_pair(self, pair: StackPair) -> u16 {
        match pair {
            StackPair::BC => self.bc(),
            StackPair::DE => self.de(),
            StackPair::HL => self.hl(),
            StackPair::AF => self.af(),
        }
    }

    /// The state with `value` in a pair that can be popped.
    #[verifier::opaque]
    pub open spec fn with_stack_pair(self, pair: StackPair, value: u16) -> Z80State {
        match pair {
            StackPair::BC => self.with_bc(value),
            StackPair::DE => self.with_de(value),
            StackPair::HL => self.with_hl(value),
            StackPair::AF => self.with_af(value),
        }
    }

    /// The state with the program counter at `pc`.
    pub open spec fn at(self, pc: u16) -> Z80State {
        Z80State { pc, ..self }
    }

    /// Whether `flag` is set in F.
    pub open spec fn flag(self, flag: Flag) -> bool {
        flag_is_set(self.f, flag)
    }

    /// Whether the branch condition `cond` holds.
    pub open spec fn cond_holds(self, cond: Cond) -> bool {
        match cond {
            Cond::NZ => !self.flag(Flag::Z),
            Cond::Z => self.flag(Flag::Z),
            Cond::NC => !self.flag(Flag::C),
            Cond::C => self.flag(Flag::C),
            Cond::P => !self.flag(Flag::S),
            Cond::M => self.flag(Flag::S),
        }
    }

    /// The byte of memory at `address`.
    pub open spec fn byte_at(self, address: u16) -> u8 {
        self.memory.read_byte(address)
    }

    /// The little-endian word of memory at `address`.
    pub open spec fn word_at(self, address: u16) -> u16 {
        self.memory.read_word(address)
    }

    /// The state after a byte write that does not fail: the memory has taken
    /// it, and the port write it stands for, if any, has gone to the bus.
    pub open spec fn after_store(self, address: u16, value: u8) -> Z80State {
        Z80State {
            memory: self.memory.after_write(address, value),
            bus: match MemoryState::port_write(address, value) {
                Some(write) => self.bus.after_output(write.port, write.value),
                None => self.bus,
            },
            ..self
        }
    }

    /// A byte write: it fails in the ROM half of a strict memory.
    #[verifier::opaque]
    pub open spec fn store_byte(self, address: u16, value: u8) -> Outcome {
        if self.memory.write_fails(address) {
            Err(MachineError::WriteToRom { addr: address })
        } else {
            Ok(self.after_store(address, value))
        }
    }

    /// A word write, low byte first: it fails, and writes nothing, where
    /// either byte write would fail.
    #[verifier::opaque]
    pub open spec fn store_word(self, address: u16, value: u16) -> Outcome {
        if self.memory.word_write_fails(address) {
            Err(MachineError::WriteToRom { addr: self.memory.word_write_fault(address) })
        } else {
            Ok(
                self.after_store(address, low_byte(value)).after_store(
                    address.wrapping_add(1),
                    high_byte(value),
                ),
            )
        }
    }

    /// The state after the bytes of `bytes` have been written to `address`
    /// and up, none of the writes failing; addresses count on from `0xFFFF`
    /// to 0.
    pub open spec fn after_stores(self, address: u16, bytes: Seq<u8>) -> Z80State
        decreases bytes.len(),
    {
        if bytes.len() == 0 {
            self
        } else {
            self.after_store(address, bytes[0]).after_stores(
                address.wrapping_add(1),
                bytes.subrange(1, bytes.len() as int),
            )
        }
    }

    /// The address at which writing `count` bytes to `address` and up fails,
    /// if it does: in a strict memory, the first of the addresses in the ROM
    /// half.
    pub open spec fn stores_fault(self, address: u16, count: nat) -> Option<u16> {
        if self.memory.mode != WriteMode::Strict || count == 0 {
            None
        } else if address < 0x8000 {
            Some(address)
        } else if address + count > 0x10000 {
            Some(0u16)
        } else {
            None
        }
    }

    /// Writing the bytes of `bytes` to `address` and up: where one of the
    /// writes would fail, nothing is written.
    pub open spec fn store_bytes(self, address: u16, bytes: Seq<u8>) -> Outcome {
        match self.stores_fault(address, bytes.len()) {
            Some(addr) => Err(MachineError::WriteToRom { addr }),
            None => Ok(self.after_stores(address, bytes)),
        }
    }

    /// The value of an 8-bit operand.
    pub open spec fn reg(self, reg: Reg8) -> u8 {
        match reg {
            Reg8::B => self.b,
            Reg8::C => self.c,
            Reg8::D => self.d,
            Reg8::E => self.e,
            Reg8::H => self.h,
            Reg8::L => self.l,
            Reg8::HlRef => self.byte_at(self.hl()),
            Reg8::A => self.a,
        }
    }

    /// The state after `value` has gone into an 8-bit operand; for (HL) that
    /// is a byte write, which can fail.
    #[verifier::opaque]
    pub open spec fn set_reg(self, reg: Reg8, value: u8) -> Outcome {
        match reg {
            Reg8::B => Ok(Z80State { b: value, ..self }),
            Reg8::C => Ok(Z80State { c: value, ..self }),
            Reg8::D => Ok(Z80State { d: value, ..self }),
            Reg8::E => Ok(Z80State { e: value, ..self }),
            Reg8::H => Ok(Z80State { h: value, ..self }),
            Reg8::L => Ok(Z80State { l: value, ..self }),
            Reg8::HlRef => self.store_byte(self.hl(), value),
            Reg8::A => Ok(Z80State { a: value, ..self }),
        }
    }

    /// A push: the word goes to the two bytes below the stack pointer, which
    /// then points at it.
    #[verifier::opaque]
    pub open spec fn push(self, value: u16) -> Outcome {
        match self.store_word(self.sp.wrapping_sub(2), value) {
            Ok(state) => Ok(Z80State { sp: self.sp.wrapping_sub(2), ..state }),
            Err(error) => Err(error),
        }
    }

    /// The word that a pop returns.
    pub open spec fn top_of_stack(self) -> u16 {
        self.word_at(self.sp)
    }

    /// The state after a pop: the stack pointer has moved up by two.
    pub open spec fn after_pop(self) -> Z80State {
        Z80State { sp: self.sp.wrapping_add(2), ..self }
    }

    /// The state after `op` has worked on A and the operand `x`: the flags
    /// are the operation's; A takes the result, except for a comparison.
    #[verifier::opaque]
    pub open spec fn after_alu(self, op: AluOp, x: u8) -> Z80State {
        let outcome = alu_outcome(op, self.a, x, self.flag(Flag::C));
        Z80State {
            a: if op == AluOp::Cp {
                self.a
            } else {
                outcome.value
            },
            f: pack_flags(self.f, outcome.flags),
            ..self
        }
    }

    /// The state after an 8-bit operand has taken the value of `outcome` and
    /// F its flags.
    #[verifier::opaque]
    pub open spec fn after_update(self, reg: Reg8, outcome: AluOutcome) -> Outcome {
        then_flags(self.set_reg(reg, outcome.value), pack_flags(self.f, outcome.flags))
    }

    /// The state after HL has had the 16-bit register `pair` added to it.
    #[verifier::opaque]
    pub open spec fn after_add_hl(self, pair: Pair) -> Z80State {
        let operand = self.pair(pair);
        Z80State {
            f: pack_flags(self.f, add16_flags(self.hl(), operand, unpack_flags(self.f))),
            ..self.with_hl(add16_value(self.hl(), operand))
        }
    }

    /// `CPL`: A is complemented bit by bit; N and H are set.
    #[verifier::opaque]
    pub open spec fn after_cpl(self) -> Z80State {
        Z80State {
            a: !self.a,
            f: with_flag(with_flag(self.f, Flag::N, true), Flag::H, true),
            ..self
        }
    }

    /// `RLCA`: A is rotated left; C takes the old bit 7; N and H are cleared.
    #[verifier::opaque]
    pub open spec fn after_rlca(self) -> Z80State {
        Z80State { a: rotated_left(self.a), ..self.with_carry_flags(self.a >= 0x80) }
    }

    /// `RRCA`: A is rotated right; C takes the old bit 0; N and H are cleared.
    #[verifier::opaque]
    pub open spec fn after_rrca(self) -> Z80State {
        Z80State { a: rotated_right(self.a), ..self.with_carry_flags(self.a % 2 == 1) }
    }

    /// The state with H and N cleared and C set to `carry`; S, Z and P/V stay.
    #[verifier::opaque]
    pub open spec fn with_carry_flags(self, carry: bool) -> Z80State {
        Z80State {
            f: pack_flags(
                self.f,
                FlagSet { h: false, n: false, c: carry, ..unpack_flags(self.f) },
            ),
            ..self
        }
    }

    /// The number of bytes that a block move copies: the count in BC, where 0
    /// stands for 65536.
    pub open spec fn block_count(self) -> nat {
        if self.bc() == 0 {
            0x10000
        } else {
            self.bc() as nat
        }
    }

    /// The address at which a block move fails, if it does: in a strict
    /// memory, the first destination address in the ROM half.
    pub open spec fn block_fault(self) -> Option<u16> {
        if self.memory.mode != WriteMode::Strict {
            None
        } else if self.de() < 0x8000 {
            Some(self.de())
        } else if self.de() + self.block_count() > 0x10000 {
            Some(0u16)
        } else {
            None
        }
    }

    /// One step of a block move: the byte at (HL) goes to (DE); HL and DE
    /// move up and BC counts down.
    pub open spec fn after_block_byte(self) -> Z80State {
        self.after_store(self.de(), self.byte_at(self.hl())).with_hl(
            self.hl().wrapping_add(1),
        ).with_de(self.de().wrapping_add(1)).with_bc(self.bc().wrapping_sub(1))
    }

    /// The state after `count` steps of a block move.
    pub open spec fn after_block_move(self, count: nat) -> Z80State
        decreases count,
    {
        if count == 0 {
            self
        } else {
            self.after_block_byte().after_block_move((count - 1) as nat)
        }
    }

    /// `LDIR`: all of the block is moved within the one instruction; H, N and
    /// P/V end up clear. Where a destination byte lies in the ROM half of a
    /// strict memory, the instruction fails before it moves anything.
    pub open spec fn after_ldir(self) -> Outcome {
        match self.block_fault() {
            Some(addr) => Err(MachineError::WriteToRom { addr }),
            None => {
                let moved = self.after_block_move(self.block_count());
                Ok(
                    Z80State {
                        f: pack_flags(
                            moved.f,
                            FlagSet { h: false, n: false, pv: false, ..unpack_flags(moved.f) },
                        ),
                        ..moved
                    },
                )
            },
        }
    }

    /// `OUTI`. In its plain form the instruction only clears bit 4 of E.
    /// With `faithful_outi` it does what the Z80's does: B counts down, the
    /// byte at (HL) goes to port C, HL moves up, Z tells whether B reached 0
    /// and N is set.
    #[verifier::opaque]
    pub open spec fn after_outi(self) -> Z80State {
        if self.faithful_outi {
            let b = self.b.wrapping_sub(1);
            Z80State {
                b,
                bus: self.bus.after_output(self.c, self.byte_at(self.hl())),
                f: pack_flags(self.f, FlagSet { z: b == 0, n: true, ..unpack_flags(self.f) }),
                ..self.with_hl(self.hl().wrapping_add(1))
            }
        } else {
            Z80State { e: self.e & 0xEF, ..self }
        }
    }

    /// The address after the instruction `op` at the program counter.
    pub open spec fn next_pc(self, op: Op) -> u16 {
        self.pc.wrapping_add(op.length() as u16)
    }

    /// What a load makes of the state; an instruction of another group
    /// leaves it as it is.
    pub open spec fn after_load(self, op: Op) -> Outcome {
        let next = self.next_pc(op);
        match op {
            Op::Nop => Ok(self.at(next)),
            Op::Ld { dst, src } => then_at(self.set_reg(dst, self.reg(src)), next),
            Op::LdImm { dst, value } => then_at(self.set_reg(dst, value), next),
            Op::LdAFromBc => Ok(Z80State { a: self.byte_at(self.bc()), ..self }.at(next)),
            Op::LdAFromDe => Ok(Z80State { a: self.byte_at(self.de()), ..self }.at(next)),
            Op::LdAFromAddr { addr } => Ok(Z80State { a: self.byte_at(addr), ..self }.at(next)),
            Op::LdDeFromA => then_at(self.store_byte(self.de(), self.a), next),
            Op::LdAddrFromA { addr } => then_at(self.store_byte(addr, self.a), next),
            Op::LdAddrFromHl { addr } => then_at(self.store_word(addr, self.hl()), next),
            Op::LdHlFromAddr { addr } => Ok(self.with_hl(self.word_at(addr)).at(next)),
            Op::LdPair { pair, value } => Ok(self.with_pair(pair, value).at(next)),
            Op::LdSpHl => Ok(Z80State { sp: self.hl(), ..self }.at(next)),
            _ => Ok(self),
        }
    }

    /// What an arithmetic or logic instruction makes of the state; an
    /// instruction of another group leaves it as it is.
    pub open spec fn after_arithmetic(self, op: Op) -> Outcome {
        let next = self.next_pc(op);
        match op {
            Op::Inc { reg } => {
                let result = self.reg(reg).wrapping_add(1);
                then_at(
                    self.after_update(
                        reg,
                        AluOutcome { value: result, flags: inc_flags(result, self.flag(Flag::C)) },
                    ),
                    next,
                )
            },
            Op::Dec { reg } => {
                let result = self.reg(reg).wrapping_sub(1);
                then_at(
                    self.after_update(
                        reg,
                        AluOutcome { value: result, flags: dec_flags(result, self.flag(Flag::C)) },
                    ),
                    next,
                )
            },
            Op::IncPair { pair } => Ok(
                self.with_pair(pair, self.pair(pair).wrapping_add(1)).at(next),
            ),
            Op::DecPair { pair } => Ok(
                self.with_pair(pair, self.pair(pair).wrapping_sub(1)).at(next),
            ),
            Op::Alu { op, src } => Ok(self.after_alu(op, self.reg(src)).at(next)),
            Op::AluImm { op, value } => Ok(self.after_alu(op, value).at(next)),
            Op::AddHl { pair } => Ok(self.after_add_hl(pair).at(next)),
            Op::Cpl => Ok(self.after_cpl().at(next)),
            Op::Ccf => Ok(self.with_carry_flags(!self.flag(Flag::C)).at(next)),
            Op::Scf => Ok(self.with_carry_flags(true).at(next)),
            Op::Rlca => Ok(self.after_rlca().at(next)),
            Op::Rrca => Ok(self.after_rrca().at(next)),
            Op::CpIx { offset } => Ok(
                self.after_alu(AluOp::Cp, self.byte_at(displaced(self.ix, offset))).at(next),
            ),
            Op::CpIy { offset } => Ok(
                self.after_alu(AluOp::Cp, self.byte_at(displaced(self.iy, offset))).at(next),
            ),
            _ => Ok(self),
        }
    }

    /// What a jump, call or return makes of the state; an instruction of
    /// another group leaves it as it is.
    pub open spec fn after_flow(self, op: Op) -> Outcome {
        let next = self.next_pc(op);
        match op {
            Op::Jp { target } => Ok(self.at(target)),
            Op::JpIf { cond, target } => Ok(
                self.at(
                    if self.cond_holds(cond) {
                        target
                    } else {
                        next
                    },
                ),
            ),
            Op::Jr { offset } => Ok(self.at(displaced(next, offset))),
            Op::JrIf { cond, offset } => Ok(
                self.at(
                    if self.cond_holds(cond) {
                        displaced(next, offset)
                    } else {
                        next
                    },
                ),
            ),
            Op::Djnz { offset } => {
                let b = self.b.wrapping_sub(1);
                Ok(
                    Z80State { b, ..self }.at(
                        if b != 0 {
                            displaced(next, offset)
                        } else {
                            next
                        },
                    ),
                )
            },
            Op::Call { target } => then_at(self.push(next), target),
            Op::CallIf { cond, target } => if self.cond_holds(cond) {
                then_at(self.push(next), target)
            } else {
                Ok(self.at(next))
            },
            Op::Ret => Ok(self.after_pop().at(self.top_of_stack())),
            Op::RetIf { cond } => if self.cond_holds(cond) {
                Ok(self.after_pop().at(self.top_of_stack()))
            } else {
                Ok(self.at(next))
            },
            Op::Rst { vector } => then_at(self.push(next), vector as u16),
            _ => Ok(self),
        }
    }

    /// What a stack, exchange, I/O or interrupt-control instruction makes of
    /// the state; an instruction of another group leaves it as it is.
    pub open spec fn after_system(self, op: Op) -> Outcome {
        let next = self.next_pc(op);
        match op {
            Op::Push { pair } => then_at(self.push(self.stack_pair(pair)), next),
            Op::Pop { pair } => Ok(
                self.after_pop().with_stack_pair(pair, self.top_of_stack()).at(next),
            ),
            Op::ExDeHl => Ok(self.with_de(self.hl()).with_hl(self.de()).at(next)),
            Op::ExSpHl => match self.store_word(self.sp, self.hl()) {
                Ok(state) => Ok(state.with_hl(self.word_at(self.sp)).at(next)),
                Err(error) => Err(error),
            },
            Op::Exx => Ok(
                Z80State {
                    b: self.b_alt,
                    c: self.c_alt,
                    d: self.d_alt,
                    e: self.e_alt,
                    h: self.h_alt,
                    l: self.l_alt,
                    b_alt: self.b,
                    c_alt: self.c,
                    d_alt: self.d,
                    e_alt: self.e,
                    h_alt: self.h,
                    l_alt: self.l,
                    ..self
                }.at(next),
            ),
            Op::Halt => Ok(Z80State { halted: true, ..self }.at(next)),
            Op::In { port } => Ok(
                Z80State {
                    a: self.bus.input_value(port),
                    bus: self.bus.after_input(port),
                    ..self
                }.at(next),
            ),
            Op::Out { port } => Ok(
                Z80State { bus: self.bus.after_output(port, self.a), ..self }.at(next),
            ),
            Op::Ei => Ok(Z80State { iff1: true, ..self }.at(next)),
            Op::Di => Ok(Z80State { iff1: false, ..self }.at(next)),
            Op::Im1 => Ok(Z80State { im: 1, ..self }.at(next)),
            _ => Ok(self),
        }
    }

    /// What a rotate, shift, bit or block instruction makes of the state; an
    /// instruction of another group leaves it as it is.
    pub open spec fn after_bits(self, op: Op) -> Outcome {
        let next = self.next_pc(op);
        match op {
            Op::Rlc { reg } => then_at(self.after_update(reg, rlc_outcome(self.reg(reg))), next),
            Op::Sla { reg } => then_at(self.after_update(reg, sla_outcome(self.reg(reg))), next),
            Op::Sra { reg } => then_at(self.after_update(reg, sra_outcome(self.reg(reg))), next),
            Op::Bit { bit, reg } => Ok(
                Z80State {
                    f: pack_flags(
                        self.f,
                        bit_test_flags(self.reg(reg), bit % 8, self.flag(Flag::C)),
                    ),
                    ..self
                }.at(next),
            ),
            Op::ResBit { bit, reg } => then_at(
                self.set_reg(reg, self.reg(reg) & !(1u8 << (bit % 8))),
                next,
            ),
            Op::SetBit { bit, reg } => then_at(
                self.set_reg(reg, self.reg(reg) | (1u8 << (bit % 8))),
                next,
            ),
            Op::Ldir => then_at(self.after_ldir(), next),
            Op::Outi => Ok(self.after_outi().at(next)),
            _ => Ok(self),
        }
    }

    /// What the instruction `op`, found at the program counter, makes of the
    /// state.
    pub open spec fn after_op(self, op: Op) -> Outcome {
        match op.group() {
            OpGroup::Load => self.after_load(op),
            OpGroup::Arithmetic => self.after_arithmetic(op),
            OpGroup::Flow => self.after_flow(op),
            OpGroup::System => self.after_system(op),
            OpGroup::Bits => self.after_bits(op),
        }
    }

    /// The instruction at the program counter, if the bytes there start one.
    pub open spec fn fetch(self) -> Option<Op> {
        decode(
            self.byte_at(self.pc),
            self.byte_at(self.pc.wrapping_add(1)),
            self.byte_at(self.pc.wrapping_add(2)),
        )
    }

    /// The error for the bytes at the program counter when they start no
    /// instruction: it names the byte that does not fit and its address,
    /// which after a prefix is the byte behind the prefix.
    pub open spec fn unknown_opcode(self) -> MachineError {
        if is_prefix(self.byte_at(self.pc)) {
            MachineError::UnknownOpcode {
                addr: self.pc.wrapping_add(1),
                byte: self.byte_at(self.pc.wrapping_add(1)),
            }
        } else {
            MachineError::UnknownOpcode { addr: self.pc, byte: self.byte_at(self.pc) }
        }
    }

    /// Whether the next step takes the pending interrupt.
    pub open spec fn accepts_interrupt(self) -> bool {
        self.interrupt_request && self.iff1
    }

    /// Taking the interrupt: the request and IFF1 are cleared, the halt latch
    /// is released, the program counter is pushed and execution goes on at
    /// the interrupt vector.
    pub open spec fn after_interrupt(self) -> Outcome {
        match self.push(self.pc) {
            Ok(state) => Ok(
                Z80State {
                    interrupt_request: false,
                    iff1: false,
                    halted: false,
                    pc: 0x0038,
                    ..state
                },
            ),
            Err(error) => Err(error),
        }
    }

    /// What one step does, the step counter apart: it takes a pending
    /// interrupt, or idles while halted, or executes the instruction at the
    /// program counter.
    pub open spec fn retire(self) -> Outcome {
        if self.accepts_interrupt() {
            self.after_interrupt()
        } else if self.halted {
            Ok(self)
        } else {
            match self.fetch() {
                Some(op) => self.after_op(op),
                None => Err(self.unknown_opcode()),
            }
        }
    }

    /// Whether the step counter stands in the way of another step: the step
    /// would bring the counter up to the configured cap, or the counter
    /// is at the end of its range.
    pub open spec fn step_limit_reached(self) -> bool {
        self.cycles == u64::MAX || match self.max_cycles {
            Some(cap) => self.cycles + 1 >= cap,
            None => false,
        }
    }

    /// One step: it fails at the step limit; else it retires and counts one
    /// step, or fails as the retiring does.
    pub open spec fn step(self) -> Outcome {
        if self.step_limit_reached() {
            Err(MachineError::StepLimitReached)
        } else {
            match self.retire() {
                Ok(state) => Ok(Z80State { cycles: (self.cycles + 1) as u64, ..state }),
                Err(error) => Err(error),
            }
        }
    }

    /// The processor after a reset: registers, interrupt state and step
    /// counter as at power-on; the memory, the bus and the configuration stay.
    pub open spec fn after_reset(self) -> Z80State {
        Z80State {
            a: 0,
            f: 0,
            b: 0,
            c: 0,
            d: 0,
            e: 0,
            h: 0,
            l: 0,
            b_alt: 0,
            c_alt: 0,
            d_alt: 0,
            e_alt: 0,
            h_alt: 0,
            l_alt: 0,
            sp: 0xF000,
            pc: 0,
            ix: 0,
            iy: 0,
            iff1: false,
            iff2: false,
            im: 0,
            interrupt_request: false,
            halted: false,
            cycles: 0,
            ..self
        }
    }
}

} // verus!
