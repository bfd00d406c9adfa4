//! Fetch, decode and execute: one instruction, and one step of the processor.

use vstd::prelude::*;
use crate::bits::displace;
use crate::error::MachineError;
use super::alu::{add16, rlc, rotate_left, rotate_right, sla, sra, test_bit, AluOp};
use super::cpu::Z80;
use super::cpu_state::{retires, Z80State, INTERRUPT_VECTOR};
use super::flags::{assign_flag, pack, unpack, Flag, FlagSet};
use super::memory::WriteMode;
use super::opcode::{decode_bytes, Op, OpGroup};

verus! {

impl Z80 {
    /// `CPL`.
    pub fn cpl(&mut self)
        ensures
            final(self)@ == old(self)@.after_cpl(),
            old(self)@.same_settings(final(self)@),
    {
        proof {
            reveal(Z80State::after_cpl);
        }
        self.a = !self.a;
        self.f = assign_flag(assign_flag(self.f, Flag::N, true), Flag::H, true);
    }

    /// `RLCA`.
    pub fn rlca(&mut self)
        ensures
            final(self)@ == old(self)@.after_rlca(),
            old(self)@.same_settings(final(self)@),
    {
        proof {
            reveal(Z80State::after_rlca);
        }
        let a = self.a;
        self.set_carry_flags(a >= 0x80);
        self.a = rotate_left(a);
    }

    /// `RRCA`.
    pub fn rrca(&mut self)
        ensures
            final(self)@ == old(self)@.after_rrca(),
            old(self)@.same_settings(final(self)@),
    {
        proof {
            reveal(Z80State::after_rrca);
        }
        let a = self.a;
        self.set_carry_flags(a % 2 == 1);
        self.a = rotate_right(a);
    }

    /// `ADD HL,rr`.
    pub fn add_hl(&mut self, pair: super::opcode::Pair)
        ensures
            final(self)@ == old(self)@.after_add_hl(pair),
            old(self)@.same_settings(final(self)@),
    {
        proof {
            reveal(Z80State::after_add_hl);
        }
        let operand = self.get_pair(pair);
        let hl = self.get_hl();
        let (value, flags) = add16(hl, operand, unpack(self.f));
        let packed = pack(self.f, flags);
        self.set_hl(value);
        self.f = packed;
    }

    /// One step of a block move: the byte at (HL) goes to (DE), HL and DE
    /// move up, BC counts down.
    fn block_byte(&mut self)
        requires
            !old(self)@.memory.write_fails(old(self)@.de()),
        ensures
            final(self)@ == old(self)@.after_block_byte(),
            final(self)@.de() == old(self)@.de().wrapping_add(1),
            final(self)@.bc() == old(self)@.bc().wrapping_sub(1),
            old(self)@.same_settings(final(self)@),
    {
        proof {
            reveal(Z80State::store_byte);
        }
        let hl = self.get_hl();
        let de = self.get_de();
        let bc = self.get_bc();
        let value = self.read_byte(hl);
        let stored = self.store_byte(de, value);
        assert(stored.is_ok());
        self.set_hl(hl.wrapping_add(1));
        self.set_de(de.wrapping_add(1));
        self.set_bc(bc.wrapping_sub(1));
    }

    /// `LDIR`.
    pub fn ldir(&mut self) -> (result: Result<(), MachineError>)
        ensures
            retires(old(self)@, old(self)@.after_ldir(), result, final(self)@),
            old(self)@.same_settings(final(self)@),
    {
        let de = self.get_de();
        let bc = self.get_bc();
        let count: u32 = if bc == 0 {
            0x10000
        } else {
            bc as u32
        };
        match self.memory.mode {
            WriteMode::Strict => {
                if de < 0x8000 {
                    return Err(MachineError::WriteToRom { addr: de });
                }
                if de as u32 + count > 0x10000 {
                    return Err(MachineError::WriteToRom { addr: 0 });
                }
            },
            WriteMode::Permissive => {},
        }
        let mut remaining: u32 = count;
        while remaining > 0
            invariant
                remaining <= 0x10000,
                self@.after_block_move(remaining as nat) == old(self)@.after_block_move(
                    count as nat,
                ),
                old(self)@.same_settings(self@),
                self@.memory.mode == WriteMode::Strict && remaining > 0 ==> self@.de() >= 0x8000
                    && self@.de() + remaining <= 0x10000,
            decreases remaining,
        {
            self.block_byte();
            remaining = remaining - 1;
        }
        let before = unpack(self.f);
        self.f = pack(
            self.f,
            FlagSet { s: before.s, z: before.z, h: false, pv: false, n: false, c: before.c },
        );
        Ok(())
    }

    /// Writes the bytes of `bytes` to `address` and up, as the processor
    /// writes them: by the regions of memory, with the VDP addresses going to
    /// the bus. Where one of the writes would fail, nothing is written.
    pub fn store_bytes(&mut self, address: u16, bytes: &[u8]) -> (result: Result<
        (),
        MachineError,
    >)
        ensures
            retires(old(self)@, old(self)@.store_bytes(address, bytes@), result, final(self)@),
            old(self)@.same_settings(final(self)@),
    {
        proof {
            reveal(Z80State::store_byte);
        }
        match self.memory.mode {
            WriteMode::Strict => {
                if bytes.len() > 0 {
                    if address < 0x8000 {
                        return Err(MachineError::WriteToRom { addr: address });
                    }
                    if bytes.len() > 0x10000 - address as usize {
                        return Err(MachineError::WriteToRom { addr: 0 });
                    }
                }
            },
            WriteMode::Permissive => {},
        }
        let mut index: usize = 0;
        let mut target = address;
        assert(bytes@.subrange(0, bytes@.len() as int) =~= bytes@);
        while index < bytes.len()
            invariant
                index <= bytes@.len(),
                old(self)@.same_settings(self@),
                self@.after_stores(target, bytes@.subrange(index as int, bytes@.len() as int))
                    == old(self)@.after_stores(address, bytes@),
                self@.memory.mode == WriteMode::Strict && index < bytes@.len() ==> target >= 0x8000
                    && target + (bytes@.len() - index) <= 0x10000,
            decreases bytes@.len() - index,
        {
            proof {
                reveal(Z80State::store_byte);
            }
            let ghost rest = bytes@.subrange(index as int, bytes@.len() as int);
            assert(rest[0] == bytes@[index as int]);
            assert(rest.subrange(1, rest.len() as int) =~= bytes@.subrange(
                index as int + 1,
                bytes@.len() as int,
            ));
            let stored = self.store_byte(target, bytes[index]);
            assert(stored.is_ok());
            target = target.wrapping_add(1);
            index = index + 1;
        }
        Ok(())
    }

    /// `OUTI`, in the form that `faithful_outi` selects.
    pub fn outi(&mut self)
        ensures
            final(self)@ == old(self)@.after_outi(),
            old(self)@.same_settings(final(self)@),
    {
        proof {
            reveal(Z80State::after_outi);
        }
        if self.faithful_outi {
            let hl = self.get_hl();
            let value = self.read_byte(hl);
            let b = self.b.wrapping_sub(1);
            let before = unpack(self.f);
            let packed = pack(
                self.f,
                FlagSet {
                    s: before.s,
                    z: b == 0,
                    h: before.h,
                    pv: before.pv,
                    n: true,
                    c: before.c,
                },
            );
            self.bus.output(self.c, value);
            self.set_hl(hl.wrapping_add(1));
            self.b = b;
            self.f = packed;
        } else {
            self.e = self.e & 0xEF;
        }
    }

    /// Executes a load; leaves an instruction of another group alone.
    pub fn execute_load(&mut self, op: Op) -> (result: Result<(), MachineError>)
        ensures
            retires(old(self)@, old(self)@.after_load(op), result, final(self)@),
            old(self)@.same_settings(final(self)@),
    {
        let next = self.pc.wrapping_add(op.len() as u16);
        match op {
            Op::Nop => self.nop(),
            Op::Ld { dst, src } => {
                let value = self.get_register(src);
                self.set_register(dst, value)?;
            },
            Op::LdImm { dst, value } => {
                self.set_register(dst, value)?;
            },
            Op::LdAFromBc => self.ld_a_bc(),
            Op::LdAFromDe => self.ld_a_de(),
            Op::LdAFromAddr { addr } => {
                self.a = self.read_byte(addr);
            },
            Op::LdDeFromA => {
                self.ld_de_a()?;
            },
            Op::LdAddrFromA { addr } => {
                self.store_byte(addr, self.a)?;
            },
            Op::LdAddrFromHl { addr } => {
                let hl = self.get_hl();
                self.store_word(addr, hl)?;
            },
            Op::LdHlFromAddr { addr } => {
                let value = self.read_word(addr);
                self.set_hl(value);
            },
            Op::LdPair { pair, value } => self.set_pair(pair, value),
            Op::LdSpHl => {
                self.sp = self.get_hl();
            },
            _ => {
                return Ok(());
            },
        }
        self.pc = next;
        Ok(())
    }

    /// Executes an arithmetic or logic instruction; leaves an instruction of
    /// another group alone.
    pub fn execute_arithmetic(&mut self, op: Op) -> (result: Result<(), MachineError>)
        ensures
            retires(old(self)@, old(self)@.after_arithmetic(op), result, final(self)@),
            old(self)@.same_settings(final(self)@),
    {
        let next = self.pc.wrapping_add(op.len() as u16);
        match op {
            Op::Inc { reg } => {
                self.increment(reg)?;
            },
            Op::Dec { reg } => {
                self.decrement(reg)?;
            },
            Op::IncPair { pair } => {
                let value = self.get_pair(pair).wrapping_add(1);
                self.set_pair(pair, value);
            },
            Op::DecPair { pair } => {
                let value = self.get_pair(pair).wrapping_sub(1);
                self.set_pair(pair, value);
            },
            Op::Alu { op, src } => {
                let value = self.get_register(src);
                self.apply_alu(op, value);
            },
            Op::AluImm { op, value } => self.apply_alu(op, value),
            Op::AddHl { pair } => self.add_hl(pair),
            Op::Cpl => self.cpl(),
            Op::Ccf => {
                let carry = self.get_flag(Flag::C);
                self.set_carry_flags(!carry);
            },
            Op::Scf => self.set_carry_flags(true),
            Op::Rlca => self.rlca(),
            Op::Rrca => self.rrca(),
            Op::CpIx { offset } => {
                let value = self.read_byte(displace(self.ix, offset));
                self.apply_alu(AluOp::Cp, value);
            },
            Op::CpIy { offset } => {
                let value = self.read_byte(displace(self.iy, offset));
                self.apply_alu(AluOp::Cp, value);
            },
            _ => {
                return Ok(());
            },
        }
        self.pc = next;
        Ok(())
    }

    /// Executes a jump, call or return; leaves an instruction of another
    /// group alone.
    pub fn execute_flow(&mut self, op: Op) -> (result: Result<(), MachineError>)
        ensures
            retires(old(self)@, old(self)@.after_flow(op), result, final(self)@),
            old(self)@.same_settings(final(self)@),
    {
        let next = self.pc.wrapping_add(op.len() as u16);
        match op {
            Op::Jp { target } => {
                self.pc = target;
                return Ok(());
            },
            Op::JpIf { cond, target } => {
                if self.check_condition(cond) {
                    self.pc = target;
                    return Ok(());
                }
            },
            Op::Jr { offset } => {
                self.pc = displace(next, offset);
                return Ok(());
            },
            Op::JrIf { cond, offset } => {
                if self.check_condition(cond) {
                    self.pc = displace(next, offset);
                    return Ok(());
                }
            },
            Op::Djnz { offset } => {
                self.b = self.b.wrapping_sub(1);
                if self.b != 0 {
                    self.pc = displace(next, offset);
                    return Ok(());
                }
            },
            Op::Call { target } => {
                self.push(next)?;
                self.pc = target;
                return Ok(());
            },
            Op::CallIf { cond, target } => {
                if self.check_condition(cond) {
                    self.push(next)?;
                    self.pc = target;
                    return Ok(());
                }
            },
            Op::Ret => {
                self.ret();
                return Ok(());
            },
            Op::RetIf { cond } => {
                if self.check_condition(cond) {
                    self.ret();
                    return Ok(());
                }
            },
            Op::Rst { vector } => {
                self.push(next)?;
                self.pc = vector as u16;
                return Ok(());
            },
            _ => {
                return Ok(());
            },
        }
        self.pc = next;
        Ok(())
    }

    /// Executes a stack, exchange, I/O or interrupt-control instruction;
    /// leaves an instruction of another group alone.
    pub fn execute_system(&mut self, op: Op) -> (result: Result<(), MachineError>)
        ensures
            retires(old(self)@, old(self)@.after_system(op), result, final(self)@),
            old(self)@.same_settings(final(self)@),
    {
        let next = self.pc.wrapping_add(op.len() as u16);
        match op {
            Op::Push { pair } => {
                let value = self.get_stack_pair(pair);
                self.push(value)?;
            },
            Op::Pop { pair } => {
                let value = self.pop();
                self.set_stack_pair(pair, value);
            },
            Op::ExDeHl => {
                let de = self.get_de();
                let hl = self.get_hl();
                self.set_de(hl);
                self.set_hl(de);
            },
            Op::ExSpHl => {
                let value = self.read_word(self.sp);
                let hl = self.get_hl();
                self.store_word(self.sp, hl)?;
                self.set_hl(value);
            },
            Op::Exx => {
                let (b, c, d, e, h, l) = (self.b, self.c, self.d, self.e, self.h, self.l);
                self.b = self.b_alt;
                self.c = self.c_alt;
                self.d = self.d_alt;
                self.e = self.e_alt;
                self.h = self.h_alt;
                self.l = self.l_alt;
                self.b_alt = b;
                self.c_alt = c;
                self.d_alt = d;
                self.e_alt = e;
                self.h_alt = h;
                self.l_alt = l;
            },
            Op::Halt => {
                self.halted = true;
            },
            Op::In { port } => {
                self.a = self.bus.input(port);
            },
            Op::Out { port } => {
                self.bus.output(port, self.a);
            },
            Op::Ei => {
                self.iff1 = true;
            },
            Op::Di => {
                self.iff1 = false;
            },
            Op::Im1 => {
                self.im = 1;
            },
            _ => {
                return Ok(());
            },
        }
        self.pc = next;
        Ok(())
    }

    /// Executes a rotate, shift, bit or block instruction; leaves an
    /// instruction of another group alone.
    pub fn execute_bits(&mut self, op: Op) -> (result: Result<(), MachineError>)
        ensures
            retires(old(self)@, old(self)@.after_bits(op), result, final(self)@),
            old(self)@.same_settings(final(self)@),
    {
        let next = self.pc.wrapping_add(op.len() as u16);
        match op {
            Op::Rlc { reg } => {
                let outcome = rlc(self.get_register(reg));
                self.update_register(reg, outcome)?;
            },
            Op::Sla { reg } => {
                let outcome = sla(self.get_register(reg));
                self.update_register(reg, outcome)?;
            },
            Op::Sra { reg } => {
                let outcome = sra(self.get_register(reg));
                self.update_register(reg, outcome)?;
            },
            Op::Bit { bit, reg } => {
                let value = self.get_register(reg);
                let set = test_bit(value, bit % 8);
                let carry = self.get_flag(Flag::C);
                self.f = pack(
                    self.f,
                    FlagSet {
                        s: bit % 8 == 7 && set,
                        z: !set,
                        h: true,
                        pv: !set,
                        n: false,
                        c: carry,
                    },
                );
            },
            Op::ResBit { bit, reg } => {
                let value = self.get_register(reg) & !(1u8 << (bit % 8));
                self.set_register(reg, value)?;
            },
            Op::SetBit { bit, reg } => {
                let value = self.get_register(reg) | (1u8 << (bit % 8));
                self.set_register(reg, value)?;
            },
            Op::Ldir => {
                self.ldir()?;
            },
            Op::Outi => self.outi(),
            _ => {
                return Ok(());
            },
        }
        self.pc = next;
        Ok(())
    }

    /// Executes `op` as the instruction at the program counter.
    pub fn execute(&mut self, op: Op) -> (result: Result<(), MachineError>)
        ensures
            retires(old(self)@, old(self)@.after_op(op), result, final(self)@),
            old(self)@.same_settings(final(self)@),
    {
        match op.group_of() {
            OpGroup::Load => self.execute_load(op),
            OpGroup::Arithmetic => self.execute_arithmetic(op),
            OpGroup::Flow => self.execute_flow(op),
            OpGroup::System => self.execute_system(op),
            OpGroup::Bits => self.execute_bits(op),
        }
    }

    /// The instruction at the program counter.
    pub fn fetch(&self) -> (op: Option<Op>)
        ensures
            op == self@.fetch(),
    {
        decode_bytes(
            self.read_byte(self.pc),
            self.read_byte(self.pc.wrapping_add(1)),
            self.read_byte(self.pc.wrapping_add(2)),
        )
    }

    /// Takes the pending interrupt.
    pub fn accept_interrupt(&mut self) -> (result: Result<(), MachineError>)
        ensures
            retires(old(self)@, old(self)@.after_interrupt(), result, final(self)@),
            old(self)@.same_settings(final(self)@),
    {
        proof {
            reveal(Z80State::push);
        }
        self.push(self.pc)?;
        self.interrupt_request = false;
        self.iff1 = false;
        self.halted = false;
        self.pc = INTERRUPT_VECTOR;
        Ok(())
    }

    /// What a step does, the step counter apart.
    pub fn retire(&mut self) -> (result: Result<(), MachineError>)
        ensures
            retires(old(self)@, old(self)@.retire(), result, final(self)@),
            old(self)@.same_settings(final(self)@),
    {
        if self.interrupt_request && self.iff1 {
            return self.accept_interrupt();
        }
        if self.halted {
            return Ok(());
        }
        match self.fetch() {
            Some(op) => self.execute(op),
            None => {
                let first = self.read_byte(self.pc);
                if first == 0xCB || first == 0xED || first == 0xDD || first == 0xFD {
                    let addr = self.pc.wrapping_add(1);
                    Err(MachineError::UnknownOpcode { addr, byte: self.read_byte(addr) })
                } else {
                    Err(MachineError::UnknownOpcode { addr: self.pc, byte: first })
                }
            },
        }
    }

    /// One step of the processor. At the step limit it fails with
    /// `StepLimitReached`. Else it takes a pending interrupt if interrupts are
    /// enabled, idles if halted, or executes the instruction at the program
    /// counter; a step that does not fail raises the step counter by one, and
    /// a step that fails leaves the processor, its memory and its bus as they
    /// were.
    pub fn execute_cycle(&mut self) -> (result: Result<(), MachineError>)
        ensures
            retires(old(self)@, old(self)@.step(), result, final(self)@),
            result.is_ok() ==> final(self).cycles == old(self).cycles + 1,
    {
        if self.cycles == u64::MAX {
            return Err(MachineError::StepLimitReached);
        }
        match self.max_cycles {
            Some(cap) => {
                if self.cycles + 1 >= cap {
                    return Err(MachineError::StepLimitReached);
                }
            },
            None => {},
        }
        self.retire()?;
        self.cycles = self.cycles + 1;
        Ok(())
    }
}

} // verus!
