//! What holds of every state of the processor: the step counter, the stack,
//! the register pairs and the interrupt flip-flop.

use vstd::prelude::*;
use crate::bits::{high_byte, lemma_word_round_trip, lemma_word_value, low_byte, word_of};
use super::cpu_state::Z80State;
use super::opcode::{decode, Op};

verus! {

impl Z80State {
    /// Whether the next step executes `op`: the step limit is not reached, no
    /// interrupt is taken, the processor is not halted, and `op` is the
    /// instruction at the program counter.
    pub open spec fn executes(self, op: Op) -> bool {
        &&& !self.step_limit_reached()
        &&& !self.accepts_interrupt()
        &&& !self.halted
        &&& self.fetch() == Some(op)
    }

    /// Whether `byte`, written to `address`, is the byte found there
    /// afterwards: the address is in RAM, or it holds the byte already.
    pub open spec fn keeps(self, address: u16, byte: u8) -> bool {
        address >= 0xC000 || self.byte_at(address) == byte
    }
}

/// Every step that does not fail raises the step counter by exactly one; a
/// step that fails at the step limit is the only one that the counter
/// decides.
pub proof fn lemma_step_counts_one(state: Z80State)
    ensures
        match state.step() {
            Ok(after) => after.cycles == state.cycles + 1,
            Err(_) => true,
        },
        state.step_limit_reached() ==> state.step() == Err::<Z80State, crate::error::MachineError>(
            crate::error::MachineError::StepLimitReached,
        ),
{
}

/// A push followed by a pop returns the word that was pushed and leaves the
/// stack pointer where it was, provided that the push does not fail and that
/// the two bytes below the stack pointer keep what is written to them.
pub proof fn lemma_push_then_pop(state: Z80State, value: u16)
    requires
        state.wf(),
        state.push(value).is_ok(),
        state.keeps(state.sp.wrapping_sub(2), low_byte(value)),
        state.keeps(state.sp.wrapping_sub(1), high_byte(value)),
    ensures
        state.push(value).unwrap().top_of_stack() == value,
        state.push(value).unwrap().after_pop().sp == state.sp,
{
    reveal(Z80State::push);
    reveal(Z80State::store_word);
    lemma_word_round_trip(value, 0, 0);
    assert(state.sp.wrapping_sub(2).wrapping_add(1) == state.sp.wrapping_sub(1));
}

/// With the stack in RAM a push never fails, and the word comes back.
pub proof fn lemma_push_then_pop_in_ram(state: Z80State, value: u16)
    requires
        state.wf(),
        state.sp.wrapping_sub(2) >= 0xC000,
        state.sp.wrapping_sub(1) >= 0xC000,
    ensures
        state.push(value).is_ok(),
        state.push(value).unwrap().top_of_stack() == value,
        state.push(value).unwrap().after_pop().sp == state.sp,
{
    reveal(Z80State::push);
    reveal(Z80State::store_word);
    assert(state.sp.wrapping_sub(2).wrapping_add(1) == state.sp.wrapping_sub(1));
    lemma_push_then_pop(state, value);
}

/// Writing a register pair and reading its halves gives the high and the low
/// byte of the word; reading the pair gives the word.
pub proof fn lemma_pair_write_then_read(state: Z80State, value: u16)
    ensures
        state.with_bc(value).b == high_byte(value) && state.with_bc(value).c == low_byte(value),
        state.with_de(value).d == high_byte(value) && state.with_de(value).e == low_byte(value),
        state.with_hl(value).h == high_byte(value) && state.with_hl(value).l == low_byte(value),
        state.with_af(value).a == high_byte(value) && state.with_af(value).f == low_byte(value),
        state.with_bc(value).bc() == value,
        state.with_de(value).de() == value,
        state.with_hl(value).hl() == value,
        state.with_af(value).af() == value,
        value == 256 * high_byte(value) + low_byte(value),
{
    lemma_word_round_trip(value, 0, 0);
}

/// Setting the two halves of a register pair and reading the pair gives the
/// word with the first register as its high byte; writing that word back
/// changes nothing.
pub proof fn lemma_halves_then_pair(state: Z80State, high: u8, low: u8)
    ensures
        (Z80State { b: high, c: low, ..state }).bc() == 256 * high + low,
        (Z80State { d: high, e: low, ..state }).de() == 256 * high + low,
        (Z80State { h: high, l: low, ..state }).hl() == 256 * high + low,
        (Z80State { a: high, f: low, ..state }).af() == 256 * high + low,
        high_byte(word_of(low, high)) == high,
        low_byte(word_of(low, high)) == low,
        state.with_bc(state.bc()) == state,
        state.with_de(state.de()) == state,
        state.with_hl(state.hl()) == state,
        state.with_af(state.af()) == state,
{
    lemma_word_value(low, high);
    lemma_word_round_trip(0, low, high);
    lemma_word_round_trip(0, state.c, state.b);
    lemma_word_round_trip(0, state.e, state.d);
    lemma_word_round_trip(0, state.l, state.h);
    lemma_word_round_trip(0, state.f, state.a);
}

/// `F3` is `DI` and `FB` is `EI`, whatever follows them.
pub proof fn lemma_interrupt_opcodes(b1: u8, b2: u8)
    ensures
        decode(0xF3, b1, b2) == Some(Op::Di),
        decode(0xFB, b1, b2) == Some(Op::Ei),
{
}

/// After `DI`, IFF1 is clear.
pub proof fn lemma_di_clears_iff1(state: Z80State)
    requires
        state.executes(Op::Di),
    ensures
        state.step().is_ok(),
        !state.step().unwrap().iff1,
        state.step().unwrap().pc == state.pc.wrapping_add(1),
{
}

/// After `EI`, IFF1 is set.
pub proof fn lemma_ei_sets_iff1(state: Z80State)
    requires
        state.executes(Op::Ei),
    ensures
        state.step().is_ok(),
        state.step().unwrap().iff1,
        state.step().unwrap().pc == state.pc.wrapping_add(1),
{
}

/// After `DI; EI`, IFF1 is set: where a step executes `DI` and the step after
/// it executes `EI`, both succeed, and no interrupt can come between them.
pub proof fn lemma_di_then_ei(state: Z80State)
    requires
        state.executes(Op::Di),
        !state.step().unwrap().step_limit_reached(),
        state.step().unwrap().fetch() == Some(Op::Ei),
    ensures
        state.step().is_ok(),
        !state.step().unwrap().iff1,
        state.step().unwrap().executes(Op::Ei),
        state.step().unwrap().step().is_ok(),
        state.step().unwrap().step().unwrap().iff1,
{
    lemma_di_clears_iff1(state);
    lemma_ei_sets_iff1(state.step().unwrap());
}

} // verus!
