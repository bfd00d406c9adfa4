//! The Z80 interpreter: register file, flags, stack and the instruction
//! dispatcher, running against the memory and the I/O bus.

use vstd::prelude::*;
use crate::bits::{high_byte_of, lemma_word_round_trip, low_byte_of, make_word};
use crate::error::MachineError;
use super::alu::{alu, sub_outcome, sub_with_carry, AluOp, AluOutcome, dec_flags, inc_flags};
use super::bus::{Bus, BusState, Device};
use super::cpu_state::{retires, Z80State};
use super::flags::{assign_flag, pack, pack_flags, test_flag, unpack, with_flag, Flag, FlagSet};
use super::memory::Memory;
use super::opcode::{reg8_from_index, reg8_of, Cond, Pair, Reg8, StackPair};

verus! {

/// The stack pointer at power-on.
pub const INITIAL_SP: u16 = 0xF000;

/// The Z80 with its memory and its I/O bus. The register pairs AF, BC, DE and
/// HL are the 8-bit registers taken two by two, the first as the high byte.
#[derive(Debug)]
pub struct Z80 {
    pub a: u8,
    pub f: u8,
    pub b: u8,
    pub c: u8,
    pub d: u8,
    pub e: u8,
    pub h: u8,
    pub l: u8,
    pub b_alt: u8,
    pub c_alt: u8,
    pub d_alt: u8,
    pub e_alt: u8,
    pub h_alt: u8,
    pub l_alt: u8,
    pub sp: u16,
    pub pc: u16,
    pub ix: u16,
    pub iy: u16,
    pub iff1: bool,
    pub iff2: bool,
    pub im: u8,
    pub interrupt_request: bool,
    pub halted: bool,
    pub memory: Memory,
    pub bus: Bus,
    /// The cap on retired steps, if there is one.
    pub max_cycles: Option<u64>,
    /// The number of steps retired so far.
    pub cycles: u64,
    /// Whether `OUTI` does what the Z80's does, rather than only clear bit 4
    /// of E.
    pub faithful_outi: bool,
}

/// What a test harness or a debugger sees of the processor: the registers,
/// the derived pair HL, the byte at (HL) and the byte at the program counter.
#[derive(Clone, Copy, Debug, PartialEq, Eq, Structural)]
pub struct InternalState {
    pub pc: u16,
    pub sp: u16,
    pub a: u8,
    pub f: u8,
    pub b: u8,
    pub c: u8,
    pub d: u8,
    pub e: u8,
    pub h: u8,
    pub l: u8,
    pub hl: u16,
    pub hl_contents: u8,
    pub opcode: u8,
}

impl View for Z80 {
    type V = Z80State;

    open spec fn view(&self) -> Z80State {
        Z80State {
            a: self.a,
            f: self.f,
            b: self.b,
            c: self.c,
            d: self.d,
            e: self.e,
            h: self.h,
            l: self.l,
            b_alt: self.b_alt,
            c_alt: self.c_alt,
            d_alt: self.d_alt,
            e_alt: self.e_alt,
            h_alt: self.h_alt,
            l_alt: self.l_alt,
            sp: self.sp,
            pc: self.pc,
            ix: self.ix,
            iy: self.iy,
            iff1: self.iff1,
            iff2: self.iff2,
            im: self.im,
            interrupt_request: self.interrupt_request,
            halted: self.halted,
            memory: self.memory@,
            bus: self.bus@,
            max_cycles: self.max_cycles,
            cycles: self.cycles,
            faithful_outi: self.faithful_outi,
        }
    }
}

impl Z80State {
    /// The processor at power-on, with `memory` and an empty bus.
    pub open spec fn power_on(memory: super::memory::MemoryState) -> Z80State {
        Z80State {
            a: 0,
            f: 0,
            b: 0,
            c: 0,
            d: 0,
            e: 0,
            h: 0,
            l: 0,
            b_alt: 0,
            c_alt: 0,
            d_alt: 0,
            e_alt: 0,
            h_alt: 0,
            l_alt: 0,
            sp: 0xF000,
            pc: 0,
            ix: 0,
            iy: 0,
            iff1: false,
            iff2: false,
            im: 0,
            interrupt_request: false,
            halted: false,
            memory,
            bus: BusState::power_on(),
            max_cycles: None,
            cycles: 0,
            faithful_outi: false,
        }
    }
}

impl Z80 {
    /// A processor at power-on, with `memory` and no device on its bus.
    pub fn new(memory: Memory) -> (cpu: Z80)
        ensures
            cpu@ == Z80State::power_on(memory@),
    {
        Z80 {
            a: 0,
            f: 0,
            b: 0,
            c: 0,
            d: 0,
            e: 0,
            h: 0,
            l: 0,
            b_alt: 0,
            c_alt: 0,
            d_alt: 0,
            e_alt: 0,
            h_alt: 0,
            l_alt: 0,
            sp: INITIAL_SP,
            pc: 0,
            ix: 0,
            iy: 0,
            iff1: false,
            iff2: false,
            im: 0,
            interrupt_request: false,
            halted: false,
            memory,
            bus: Bus::new(),
            max_cycles: None,
            cycles: 0,
            faithful_outi: false,
        }
    }

    /// Puts the registers, the interrupt state and the step counter back to
    /// power-on; memory, bus and configuration stay.
    pub fn reset(&mut self)
        ensures
            final(self)@ == old(self)@.after_reset(),
    {
        self.a = 0;
        self.f = 0;
        self.b = 0;
        self.c = 0;
        self.d = 0;
        self.e = 0;
        self.h = 0;
        self.l = 0;
        self.b_alt = 0;
        self.c_alt = 0;
        self.d_alt = 0;
        self.e_alt = 0;
        self.h_alt = 0;
        self.l_alt = 0;
        self.sp = INITIAL_SP;
        self.pc = 0;
        self.ix = 0;
        self.iy = 0;
        self.iff1 = false;
        self.iff2 = false;
        self.im = 0;
        self.interrupt_request = false;
        self.halted = false;
        self.cycles = 0;
    }

    /// The observable state of the processor as it stands.
    pub fn get_internal_state(&self) -> (state: InternalState)
        ensures
            state == (InternalState {
                pc: self.pc,
                sp: self.sp,
                a: self.a,
                f: self.f,
                b: self.b,
                c: self.c,
                d: self.d,
                e: self.e,
                h: self.h,
                l: self.l,
                hl: self@.hl(),
                hl_contents: self@.byte_at(self@.hl()),
                opcode: self@.byte_at(self.pc),
            }),
    {
        let hl = self.get_hl();
        InternalState {
            pc: self.pc,
            sp: self.sp,
            a: self.a,
            f: self.f,
            b: self.b,
            c: self.c,
            d: self.d,
            e: self.e,
            h: self.h,
            l: self.l,
            hl,
            hl_contents: self.read_byte(hl),
            opcode: self.read_byte(self.pc),
        }
    }

    /// Puts `device` on the bus, behind the devices already there.
    pub fn register_device(&mut self, device: Device)
        ensures
            final(self)@ == (Z80State {
                bus: old(self)@.bus.after_register(device@),
                ..old(self)@
            }),
    {
        self.bus.register_device(device);
    }

    /// Raises the interrupt line; the request stays until it is accepted.
    pub fn request_interrupt(&mut self)
        ensures
            final(self)@ == (Z80State { interrupt_request: true, ..old(self)@ }),
    {
        self.interrupt_request = true;
    }

    pub fn set_flag(&mut self, flag: Flag, value: bool)
        ensures
            final(self)@ == (Z80State { f: with_flag(old(self).f, flag, value), ..old(self)@ }),
            old(self)@.same_settings(final(self)@),
    {
        self.f = assign_flag(self.f, flag, value);
    }

    pub fn get_flag(&self, flag: Flag) -> (set: bool)
        ensures
            set == self@.flag(flag),
    {
        test_flag(self.f, flag)
    }

    pub fn check_flag(&self, flag: Flag) -> (set: bool)
        ensures
            set == self@.flag(flag),
    {
        self.get_flag(flag)
    }

    /// Whether the branch condition `cond` holds.
    pub fn check_condition(&self, cond: Cond) -> (holds: bool)
        ensures
            holds == self@.cond_holds(cond),
    {
        match cond {
            Cond::NZ => !self.get_flag(Flag::Z),
            Cond::Z => self.get_flag(Flag::Z),
            Cond::NC => !self.get_flag(Flag::C),
            Cond::C => self.get_flag(Flag::C),
            Cond::P => !self.get_flag(Flag::S),
            Cond::M => self.get_flag(Flag::S),
        }
    }

    pub fn read_byte(&self, address: u16) -> (value: u8)
        ensures
            value == self@.byte_at(address),
    {
        self.memory.read_byte(address)
    }

    pub fn read_word(&self, address: u16) -> (value: u16)
        ensures
            value == self@.word_at(address),
    {
        self.memory.read_word(address)
    }

    /// Writes a byte to memory and sends on the port write that it stands
    /// for, if any.
    pub fn store_byte(&mut self, address: u16, value: u8) -> (result: Result<(), MachineError>)
        ensures
            retires(old(self)@, old(self)@.store_byte(address, value), result, final(self)@),
            old(self)@.same_settings(final(self)@),
    {
        proof {
            reveal(Z80State::store_byte);
        }
        match self.memory.write_byte(address, value) {
            Err(error) => Err(error),
            Ok(None) => Ok(()),
            Ok(Some(write)) => {
                self.bus.output(write.port, write.value);
                Ok(())
            },
        }
    }

    /// Writes a word to memory, low byte first, and sends on the port writes
    /// that its bytes stand for.
    pub fn store_word(&mut self, address: u16, value: u16) -> (result: Result<(), MachineError>)
        ensures
            retires(old(self)@, old(self)@.store_word(address, value), result, final(self)@),
            old(self)@.same_settings(final(self)@),
    {
        proof {
            reveal(Z80State::store_word);
        }
        match self.memory.write_word(address, value) {
            Err(error) => Err(error),
            Ok((first, second)) => {
                match first {
                    Some(write) => self.bus.output(write.port, write.value),
                    None => {},
                }
                match second {
                    Some(write) => self.bus.output(write.port, write.value),
                    None => {},
                }
                Ok(())
            },
        }
    }

    pub fn get_register(&self, reg: Reg8) -> (value: u8)
        ensures
            value == self@.reg(reg),
    {
        match reg {
            Reg8::B => self.b,
            Reg8::C => self.c,
            Reg8::D => self.d,
            Reg8::E => self.e,
            Reg8::H => self.h,
            Reg8::L => self.l,
            Reg8::HlRef => self.read_byte(self.get_hl()),
            Reg8::A => self.a,
        }
    }

    pub fn set_register(&mut self, reg: Reg8, value: u8) -> (result: Result<(), MachineError>)
        ensures
            retires(old(self)@, old(self)@.set_reg(reg, value), result, final(self)@),
            old(self)@.same_settings(final(self)@),
    {
        proof {
            reveal(Z80State::set_reg);
        }
        match reg {
            Reg8::B => self.b = value,
            Reg8::C => self.c = value,
            Reg8::D => self.d = value,
            Reg8::E => self.e = value,
            Reg8::H => self.h = value,
            Reg8::L => self.l = value,
            Reg8::HlRef => {
                let address = self.get_hl();
                return self.store_byte(address, value);
            },
            Reg8::A => self.a = value,
        }
        Ok(())
    }

    /// The operand with number `index`: 0 = B, 1 = C, 2 = D, 3 = E, 4 = H,
    /// 5 = L, 6 = the byte at (HL), 7 = A.
    pub fn get_register_by_index(&self, index: u8) -> (value: u8)
        requires
            index < 8,
        ensures
            value == self@.reg(reg8_of(index)),
    {
        self.get_register(reg8_from_index(index))
    }

    pub fn set_register_by_index(&mut self, index: u8, value: u8) -> (result: Result<
        (),
        MachineError,
    >)
        requires
            index < 8,
        ensures
            retires(
                old(self)@,
                old(self)@.set_reg(reg8_of(index), value),
                result,
                final(self)@,
            ),
            old(self)@.same_settings(final(self)@),
    {
        self.set_register(reg8_from_index(index), value)
    }

    pub fn nop(&mut self)
        ensures
            *final(self) == *old(self),
    {
    }

    pub fn get_af(&self) -> (value: u16)
        ensures
            value == self@.af(),
    {
        make_word(self.f, self.a)
    }

    pub fn get_bc(&self) -> (value: u16)
        ensures
            value == self@.bc(),
    {
        make_word(self.c, self.b)
    }

    pub fn get_de(&self) -> (value: u16)
        ensures
            value == self@.de(),
    {
        make_word(self.e, self.d)
    }

    pub fn get_hl(&self) -> (value: u16)
        ensures
            value == self@.hl(),
    {
        make_word(self.l, self.h)
    }

    pub fn set_af(&mut self, value: u16)
        ensures
            final(self)@ == old(self)@.with_af(value),
            final(self)@.af() == value,
            old(self)@.same_settings(final(self)@),
    {
        proof {
            lemma_word_round_trip(value, 0, 0);
        }
        self.a = high_byte_of(value);
        self.f = low_byte_of(value);
    }

    pub fn set_bc(&mut self, value: u16)
        ensures
            final(self)@ == old(self)@.with_bc(value),
            final(self)@.bc() == value,
            old(self)@.same_settings(final(self)@),
    {
        proof {
            lemma_word_round_trip(value, 0, 0);
        }
        self.b = high_byte_of(value);
        self.c = low_byte_of(value);
    }

    pub fn set_de(&mut self, value: u16)
        ensures
            final(self)@ == old(self)@.with_de(value),
            final(self)@.de() == value,
            old(self)@.same_settings(final(self)@),
    {
        proof {
            lemma_word_round_trip(value, 0, 0);
        }
        self.d = high_byte_of(value);
        self.e = low_byte_of(value);
    }

    pub fn set_hl(&mut self, value: u16)
        ensures
            final(self)@ == old(self)@.with_hl(value),
            final(self)@.hl() == value,
            old(self)@.same_settings(final(self)@),
    {
        proof {
            lemma_word_round_trip(value, 0, 0);
        }
        self.h = high_byte_of(value);
        self.l = low_byte_of(value);
    }

    pub fn get_pair(&self, pair: Pair) -> (value: u16)
        ensures
            value == self@.pair(pair),
    {
        match pair {
            Pair::BC => self.get_bc(),
            Pair::DE => self.get_de(),
            Pair::HL => self.get_hl(),
            Pair::SP => self.sp,
        }
    }

    pub fn set_pair(&mut self, pair: Pair, value: u16)
        ensures
            final(self)@ == old(self)@.with_pair(pair, value),
            old(self)@.same_settings(final(self)@),
    {
        proof {
            reveal(Z80State::with_pair);
        }
        match pair {
            Pair::BC => self.set_bc(value),
            Pair::DE => self.set_de(value),
            Pair::HL => self.set_hl(value),
            Pair::SP => self.sp = value,
        }
    }

    pub fn get_stack_pair(&self, pair: StackPair) -> (value: u16)
        ensures
            value == self@.stack_pair(pair),
    {
        match pair {
            StackPair::BC => self.get_bc(),
            StackPair::DE => self.get_de(),
            StackPair::HL => self.get_hl(),
            StackPair::AF => self.get_af(),
        }
    }

    pub fn set_stack_pair(&mut self, pair: StackPair, value: u16)
        ensures
            final(self)@ == old(self)@.with_stack_pair(pair, value),
            old(self)@.same_settings(final(self)@),
    {
        proof {
            reveal(Z80State::with_stack_pair);
        }
        match pair {
            StackPair::BC => self.set_bc(value),
            StackPair::DE => self.set_de(value),
            StackPair::HL => self.set_hl(value),
            StackPair::AF => self.set_af(value),
        }
    }

    /// Works `op` on A and `value`, leaving the result in A (but for a
    /// comparison) and the operation's flags in F.
    pub fn apply_alu(&mut self, op: AluOp, value: u8)
        ensures
            final(self)@ == old(self)@.after_alu(op, value),
            old(self)@.same_settings(final(self)@),
    {
        proof {
            reveal(Z80State::after_alu);
        }
        let outcome = alu(op, self.a, value, self.get_flag(Flag::C));
        match op {
            AluOp::Cp => {},
            _ => self.a = outcome.value,
        }
        self.f = pack(self.f, outcome.flags);
    }

    pub fn add_a(&mut self, value: u8)
        ensures
            final(self)@ == old(self)@.after_alu(AluOp::Add, value),
            old(self)@.same_settings(final(self)@),
    {
        self.apply_alu(AluOp::Add, value)
    }

    pub fn adc_a(&mut self, value: u8)
        ensures
            final(self)@ == old(self)@.after_alu(AluOp::Adc, value),
            old(self)@.same_settings(final(self)@),
    {
        self.apply_alu(AluOp::Adc, value)
    }

    pub fn sub_a(&mut self, value: u8)
        ensures
            final(self)@ == old(self)@.after_alu(AluOp::Sub, value),
            old(self)@.same_settings(final(self)@),
    {
        self.apply_alu(AluOp::Sub, value)
    }

    /// Sets the flags as the subtraction `a - value` leaves them; no register
    /// takes the difference.
    pub fn compare(&mut self, a: u8, value: u8)
        ensures
            final(self)@ == (Z80State {
                f: pack_flags(old(self).f, sub_outcome(a, value, false).flags),
                ..old(self)@
            }),
            old(self)@.same_settings(final(self)@),
    {
        let outcome = sub_with_carry(a, value, false);
        self.f = pack(self.f, outcome.flags);
    }

    /// Sets the flags as an increment that gave `value` leaves them.
    pub fn set_inc_flags(&mut self, value: u8)
        ensures
            final(self)@ == (Z80State {
                f: pack_flags(old(self).f, inc_flags(value, old(self)@.flag(Flag::C))),
                ..old(self)@
            }),
            old(self)@.same_settings(final(self)@),
    {
        let carry = self.get_flag(Flag::C);
        self.f = pack(
            self.f,
            FlagSet {
                s: value >= 0x80,
                z: value == 0,
                h: value % 16 == 0,
                pv: value == 0x80,
                n: false,
                c: carry,
            },
        );
    }

    /// Sets the flags as a decrement that gave `value` leaves them.
    pub fn set_dec_flags(&mut self, value: u8)
        ensures
            final(self)@ == (Z80State {
                f: pack_flags(old(self).f, dec_flags(value, old(self)@.flag(Flag::C))),
                ..old(self)@
            }),
            old(self)@.same_settings(final(self)@),
    {
        let carry = self.get_flag(Flag::C);
        self.f = pack(
            self.f,
            FlagSet {
                s: value >= 0x80,
                z: value == 0,
                h: value % 16 == 0x0F,
                pv: value == 0x80,
                n: true,
                c: carry,
            },
        );
    }

    /// Puts the value of `outcome` into an operand and its flags into F.
    pub fn update_register(&mut self, reg: Reg8, outcome: AluOutcome) -> (result: Result<
        (),
        MachineError,
    >)
        ensures
            retires(old(self)@, old(self)@.after_update(reg, outcome), result, final(self)@),
            old(self)@.same_settings(final(self)@),
    {
        proof {
            reveal(Z80State::after_update);
        }
        let packed = pack(self.f, outcome.flags);
        self.set_register(reg, outcome.value)?;
        self.f = packed;
        Ok(())
    }

    /// Clears H and N and sets C to `carry`.
    pub fn set_carry_flags(&mut self, carry: bool)
        ensures
            final(self)@ == old(self)@.with_carry_flags(carry),
            old(self)@.same_settings(final(self)@),
    {
        proof {
            reveal(Z80State::with_carry_flags);
        }
        let before = unpack(self.f);
        self.f = pack(
            self.f,
            FlagSet { s: before.s, z: before.z, h: false, pv: before.pv, n: false, c: carry },
        );
    }

    pub fn ld_a_bc(&mut self)
        ensures
            final(self)@ == (Z80State { a: old(self)@.byte_at(old(self)@.bc()), ..old(self)@ }),
            old(self)@.same_settings(final(self)@),
    {
        let address = self.get_bc();
        self.a = self.memory.read_byte(address);
    }

    pub fn ld_a_de(&mut self)
        ensures
            final(self)@ == (Z80State { a: old(self)@.byte_at(old(self)@.de()), ..old(self)@ }),
            old(self)@.same_settings(final(self)@),
    {
        let address = self.get_de();
        self.a = self.memory.read_byte(address);
    }

    pub fn ld_a_hl(&mut self)
        ensures
            final(self)@ == (Z80State { a: old(self)@.byte_at(old(self)@.hl()), ..old(self)@ }),
            old(self)@.same_settings(final(self)@),
    {
        let address = self.get_hl();
        self.a = self.memory.read_byte(address);
    }

    pub fn ld_hl_a(&mut self) -> (result: Result<(), MachineError>)
        ensures
            retires(
                old(self)@,
                old(self)@.store_byte(old(self)@.hl(), old(self).a),
                result,
                final(self)@,
            ),
            old(self)@.same_settings(final(self)@),
    {
        proof {
            reveal(Z80State::store_byte);
        }
        let address = self.get_hl();
        self.store_byte(address, self.a)
    }

    pub fn ld_de_a(&mut self) -> (result: Result<(), MachineError>)
        ensures
            retires(
                old(self)@,
                old(self)@.store_byte(old(self)@.de(), old(self).a),
                result,
                final(self)@,
            ),
            old(self)@.same_settings(final(self)@),
    {
        proof {
            reveal(Z80State::store_byte);
        }
        let address = self.get_de();
        self.store_byte(address, self.a)
    }

    /// `INC (HL)`.
    pub fn inc_hl(&mut self) -> (result: Result<(), MachineError>)
        ensures
            retires(
                old(self)@,
                old(self)@.after_update(
                    Reg8::HlRef,
                    AluOutcome {
                        value: old(self)@.reg(Reg8::HlRef).wrapping_add(1),
                        flags: inc_flags(
                            old(self)@.reg(Reg8::HlRef).wrapping_add(1),
                            old(self)@.flag(Flag::C),
                        ),
                    },
                ),
                result,
                final(self)@,
            ),
            old(self)@.same_settings(final(self)@),
    {
        self.increment(Reg8::HlRef)
    }

    /// `DEC (HL)`.
    pub fn dec_hl(&mut self) -> (result: Result<(), MachineError>)
        ensures
            retires(
                old(self)@,
                old(self)@.after_update(
                    Reg8::HlRef,
                    AluOutcome {
                        value: old(self)@.reg(Reg8::HlRef).wrapping_sub(1),
                        flags: dec_flags(
                            old(self)@.reg(Reg8::HlRef).wrapping_sub(1),
                            old(self)@.flag(Flag::C),
                        ),
                    },
                ),
                result,
                final(self)@,
            ),
            old(self)@.same_settings(final(self)@),
    {
        self.decrement(Reg8::HlRef)
    }

    /// Adds one to an 8-bit operand.
    pub fn increment(&mut self, reg: Reg8) -> (result: Result<(), MachineError>)
        ensures
            retires(
                old(self)@,
                old(self)@.after_update(
                    reg,
                    AluOutcome {
                        value: old(self)@.reg(reg).wrapping_add(1),
                        flags: inc_flags(
                            old(self)@.reg(reg).wrapping_add(1),
                            old(self)@.flag(Flag::C),
                        ),
                    },
                ),
                result,
                final(self)@,
            ),
            old(self)@.same_settings(final(self)@),
    {
        let value = self.get_register(reg).wrapping_add(1);
        let carry = self.get_flag(Flag::C);
        self.update_register(
            reg,
            AluOutcome {
                value,
                flags: FlagSet {
                    s: value >= 0x80,
                    z: value == 0,
                    h: value % 16 == 0,
                    pv: value == 0x80,
                    n: false,
                    c: carry,
                },
            },
        )
    }

    /// Takes one from an 8-bit operand.
    pub fn decrement(&mut self, reg: Reg8) -> (result: Result<(), MachineError>)
        ensures
            retires(
                old(self)@,
                old(self)@.after_update(
                    reg,
                    AluOutcome {
                        value: old(self)@.reg(reg).wrapping_sub(1),
                        flags: dec_flags(
                            old(self)@.reg(reg).wrapping_sub(1),
                            old(self)@.flag(Flag::C),
                        ),
                    },
                ),
                result,
                final(self)@,
            ),
            old(self)@.same_settings(final(self)@),
    {
        let value = self.get_register(reg).wrapping_sub(1);
        let carry = self.get_flag(Flag::C);
        self.update_register(
            reg,
            AluOutcome {
                value,
                flags: FlagSet {
                    s: value >= 0x80,
                    z: value == 0,
                    h: value % 16 == 0x0F,
                    pv: value == 0x80,
                    n: true,
                    c: carry,
                },
            },
        )
    }

    /// Pushes `value`: the stack pointer goes down by two and the word is
    /// written where it then points.
    pub fn push(&mut self, value: u16) -> (result: Result<(), MachineError>)
        ensures
            retires(old(self)@, old(self)@.push(value), result, final(self)@),
            old(self)@.same_settings(final(self)@),
    {
        proof {
            reveal(Z80State::push);
        }
        let target = self.sp.wrapping_sub(2);
        self.store_word(target, value)?;
        self.sp = target;
        Ok(())
    }

    /// Pops a word: it is read where the stack pointer points, which then
    /// goes up by two.
    pub fn pop(&mut self) -> (value: u16)
        ensures
            value == old(self)@.top_of_stack(),
            final(self)@ == old(self)@.after_pop(),
            old(self)@.same_settings(final(self)@),
    {
        let value = self.memory.read_word(self.sp);
        self.sp = self.sp.wrapping_add(2);
        value
    }

    /// Calls `address` from a three-byte call instruction whose operand
    /// starts at the program counter: the address behind the operand is
    /// pushed.
    pub fn call(&mut self, address: u16) -> (result: Result<(), MachineError>)
        ensures
            retires(
                old(self)@,
                super::cpu_state::then_at(
                    old(self)@.push(old(self).pc.wrapping_add(2)),
                    address,
                ),
                result,
                final(self)@,
            ),
            old(self)@.same_settings(final(self)@),
    {
        proof {
            reveal(Z80State::push);
        }
        let value = self.pc.wrapping_add(2);
        self.push(value)?;
        self.pc = address;
        Ok(())
    }

    pub fn ret(&mut self)
        ensures
            final(self)@ == old(self)@.after_pop().at(old(self)@.top_of_stack()),
            old(self)@.same_settings(final(self)@),
    {
        let target = self.pop();
        self.pc = target;
    }

    /// Restarts at `address`: the address behind the one-byte instruction at
    /// the program counter is pushed.
    pub fn rst(&mut self, address: u16) -> (result: Result<(), MachineError>)
        ensures
            retires(
                old(self)@,
                super::cpu_state::then_at(
                    old(self)@.push(old(self).pc.wrapping_add(1)),
                    address,
                ),
                result,
                final(self)@,
            ),
            old(self)@.same_settings(final(self)@),
    {
        proof {
            reveal(Z80State::push);
        }
        let next_pc = self.pc.wrapping_add(1);
        self.push(next_pc)?;
        self.pc = address;
        Ok(())
    }
}

} // verus!
