//! The arithmetic and logic unit: what each operation makes of its operands,
//! and which flags it leaves.

use vstd::prelude::*;
use crate::bits::signed_value;
use super::flags::{FlagSet, even_parity, parity};

verus! {

/// The eight operations between the accumulator and an operand.
#[derive(Clone, Copy, Debug, PartialEq, Eq, Structural)]
pub enum AluOp {
    Add,
    Adc,
    Sub,
    Sbc,
    And,
    Xor,
    Or,
    Cp,
}

/// The result of an operation and the flags it leaves.
#[derive(Clone, Copy, Debug, PartialEq, Eq, Structural)]
pub struct AluOutcome {
    pub value: u8,
    pub flags: FlagSet,
}

/// 1 for a carry, 0 for none.
pub open spec fn carry_value(carry: bool) -> int {
    if carry {
        1
    } else {
        0
    }
}

/// Whether `value` lies outside the range of a signed byte.
pub open spec fn overflows_signed_byte(value: int) -> bool {
    value < -128 || value > 127
}

/// `a + x + carry`: the sum modulo 256; S and Z from the result; H on a
/// carry out of bit 3; P/V on signed overflow; N clear; C on a carry out of
/// bit 7.
pub open spec fn add_outcome(a: u8, x: u8, carry: bool) -> AluOutcome {
    let sum = a + x + carry_value(carry);
    let value = (sum % 256) as u8;
    AluOutcome {
        value,
        flags: FlagSet {
            s: value >= 0x80,
            z: value == 0,
            h: a % 16 + x % 16 + carry_value(carry) > 15,
            pv: overflows_signed_byte(signed_value(a) + signed_value(x) + carry_value(carry)),
            n: false,
            c: sum > 255,
        },
    }
}

/// `a - x - carry`: the difference modulo 256; S and Z from the result; H on
/// a borrow from bit 4; P/V on signed overflow; N set; C on a borrow.
pub open spec fn sub_outcome(a: u8, x: u8, carry: bool) -> AluOutcome {
    let difference = a - x - carry_value(carry);
    let value = (difference % 256) as u8;
    AluOutcome {
        value,
        flags: FlagSet {
            s: value >= 0x80,
            z: value == 0,
            h: a % 16 < x % 16 + carry_value(carry),
            pv: overflows_signed_byte(signed_value(a) - signed_value(x) - carry_value(carry)),
            n: true,
            c: difference < 0,
        },
    }
}

/// A logic result: S and Z from it, P/V its parity, N and C clear, and H as
/// the operation has it.
pub open spec fn logic_outcome(value: u8, h: bool) -> AluOutcome {
    AluOutcome {
        value,
        flags: FlagSet {
            s: value >= 0x80,
            z: value == 0,
            h,
            pv: even_parity(value),
            n: false,
            c: false,
        },
    }
}

/// What `op` makes of accumulator `a` and operand `x`, with `carry` coming
/// in. For a comparison the value is the difference, which the caller drops.
pub open spec fn alu_outcome(op: AluOp, a: u8, x: u8, carry: bool) -> AluOutcome {
    match op {
        AluOp::Add => add_outcome(a, x, false),
        AluOp::Adc => add_outcome(a, x, carry),
        AluOp::Sub => sub_outcome(a, x, false),
        AluOp::Sbc => sub_outcome(a, x, carry),
        AluOp::And => logic_outcome(a & x, true),
        AluOp::Xor => logic_outcome(a ^ x, false),
        AluOp::Or => logic_outcome(a | x, false),
        AluOp::Cp => sub_outcome(a, x, false),
    }
}

/// An increment that gave `result`: S and Z from it; H when the low nibble
/// came round to 0; P/V when the result is `0x80`; N clear; C as it was.
pub open spec fn inc_flags(result: u8, carry: bool) -> FlagSet {
    FlagSet {
        s: result >= 0x80,
        z: result == 0,
        h: result % 16 == 0,
        pv: result == 0x80,
        n: false,
        c: carry,
    }
}

/// A decrement that gave `result`: S and Z from it; H when the low nibble
/// came round to `0xF`; P/V when the result is `0x80`; N set; C as it was.
pub open spec fn dec_flags(result: u8, carry: bool) -> FlagSet {
    FlagSet {
        s: result >= 0x80,
        z: result == 0,
        h: result % 16 == 0x0F,
        pv: result == 0x80,
        n: true,
        c: carry,
    }
}

/// `value` rotated left by one bit, bit 7 coming round to bit 0.
pub open spec fn rotated_left(value: u8) -> u8 {
    ((value % 128) * 2 + value / 128) as u8
}

/// `value` rotated right by one bit, bit 0 coming round to bit 7.
pub open spec fn rotated_right(value: u8) -> u8 {
    (value / 2 + (value % 2) * 128) as u8
}

/// `value` shifted left by one bit, bit 0 cleared.
pub open spec fn shifted_left(value: u8) -> u8 {
    ((value % 128) * 2) as u8
}

/// `value` shifted right by one bit, bit 7 kept.
pub open spec fn shifted_right_arithmetic(value: u8) -> u8 {
    (value / 2 + (value / 128) * 128) as u8
}

/// The flags after a rotate or shift of a register that gave `result` and
/// moved `carry` out: S and Z from the result, P/V its parity, H and N clear.
pub open spec fn shift_flags(result: u8, carry: bool) -> FlagSet {
    FlagSet {
        s: result >= 0x80,
        z: result == 0,
        h: false,
        pv: even_parity(result),
        n: false,
        c: carry,
    }
}

/// Rotate left circular: C takes the old bit 7.
pub open spec fn rlc_outcome(value: u8) -> AluOutcome {
    AluOutcome { value: rotated_left(value), flags: shift_flags(rotated_left(value), value >= 0x80) }
}

/// Shift left arithmetic: C takes the old bit 7.
pub open spec fn sla_outcome(value: u8) -> AluOutcome {
    AluOutcome { value: shifted_left(value), flags: shift_flags(shifted_left(value), value >= 0x80) }
}

/// Shift right arithmetic: C takes the old bit 0.
pub open spec fn sra_outcome(value: u8) -> AluOutcome {
    AluOutcome {
        value: shifted_right_arithmetic(value),
        flags: shift_flags(shifted_right_arithmetic(value), value % 2 == 1),
    }
}

/// Whether bit `bit` of `value` is 1.
pub open spec fn bit_is_set(value: u8, bit: u8) -> bool {
    value & (1u8 << bit) != 0
}

/// The flags after a test of bit `bit` of `value`: Z when the bit is 0, P/V
/// the same; S when bit 7 was tested and is 1; H set; N clear; C as it was.
pub open spec fn bit_test_flags(value: u8, bit: u8, carry: bool) -> FlagSet {
    FlagSet {
        s: bit == 7 && bit_is_set(value, bit),
        z: !bit_is_set(value, bit),
        h: true,
        pv: !bit_is_set(value, bit),
        n: false,
        c: carry,
    }
}

/// The sum of two words modulo 2^16.
pub open spec fn add16_value(hl: u16, operand: u16) -> u16 {
    ((hl + operand) % 0x10000) as u16
}

/// The flags after a 16-bit addition: H on a carry out of bit 11, C on a
/// carry out of bit 15, N clear; S, Z and P/V as `before` has them.
pub open spec fn add16_flags(hl: u16, operand: u16, before: FlagSet) -> FlagSet {
    FlagSet {
        h: hl % 0x1000 + operand % 0x1000 > 0x0FFF,
        n: false,
        c: hl + operand > 0xFFFF,
        ..before
    }
}

fn signed(value: u8) -> (signed: i16)
    ensures
        signed == signed_value(value),
{
    if value < 128 {
        value as i16
    } else {
        value as i16 - 256
    }
}

fn carry_in(carry: bool) -> (value: u8)
    ensures
        value == carry_value(carry),
{
    if carry {
        1
    } else {
        0
    }
}

pub fn add_with_carry(a: u8, x: u8, carry: bool) -> (outcome: AluOutcome)
    ensures
        outcome == add_outcome(a, x, carry),
{
    let cv = carry_in(carry);
    let sum: u16 = a as u16 + x as u16 + cv as u16;
    let value = (sum % 256) as u8;
    let signed_sum: i16 = signed(a) + signed(x) + cv as i16;
    AluOutcome {
        value,
        flags: FlagSet {
            s: value >= 0x80,
            z: value == 0,
            h: (a % 16) + (x % 16) + cv > 15,
            pv: signed_sum < -128 || signed_sum > 127,
            n: false,
            c: sum > 255,
        },
    }
}

pub fn sub_with_carry(a: u8, x: u8, carry: bool) -> (outcome: AluOutcome)
    ensures
        outcome == sub_outcome(a, x, carry),
{
    let cv = carry_in(carry);
    let difference: i16 = a as i16 - x as i16 - cv as i16;
    let value = if difference < 0 {
        (difference + 256) as u8
    } else {
        difference as u8
    };
    let signed_difference: i16 = signed(a) - signed(x) - cv as i16;
    AluOutcome {
        value,
        flags: FlagSet {
            s: value >= 0x80,
            z: value == 0,
            h: (a % 16) < (x % 16) + cv,
            pv: signed_difference < -128 || signed_difference > 127,
            n: true,
            c: difference < 0,
        },
    }
}

pub fn logic(value: u8, h: bool) -> (outcome: AluOutcome)
    ensures
        outcome == logic_outcome(value, h),
{
    AluOutcome {
        value,
        flags: FlagSet {
            s: value >= 0x80,
            z: value == 0,
            h,
            pv: parity(value),
            n: false,
            c: false,
        },
    }
}

pub fn alu(op: AluOp, a: u8, x: u8, carry: bool) -> (outcome: AluOutcome)
    ensures
        outcome == alu_outcome(op, a, x, carry),
{
    match op {
        AluOp::Add => add_with_carry(a, x, false),
        AluOp::Adc => add_with_carry(a, x, carry),
        AluOp::Sub => sub_with_carry(a, x, false),
        AluOp::Sbc => sub_with_carry(a, x, carry),
        AluOp::And => logic(a & x, true),
        AluOp::Xor => logic(a ^ x, false),
        AluOp::Or => logic(a | x, false),
        AluOp::Cp => sub_with_carry(a, x, false),
    }
}

fn shift_outcome(result: u8, carry: bool) -> (outcome: AluOutcome)
    ensures
        outcome == (AluOutcome { value: result, flags: shift_flags(result, carry) }),
{
    AluOutcome {
        value: result,
        flags: FlagSet {
            s: result >= 0x80,
            z: result == 0,
            h: false,
            pv: parity(result),
            n: false,
            c: carry,
        },
    }
}

pub fn rotate_left(value: u8) -> (result: u8)
    ensures
        result == rotated_left(value),
{
    (value % 128) * 2 + value / 128
}

pub fn rotate_right(value: u8) -> (result: u8)
    ensures
        result == rotated_right(value),
{
    value / 2 + (value % 2) * 128
}

pub fn rlc(value: u8) -> (outcome: AluOutcome)
    ensures
        outcome == rlc_outcome(value),
{
    shift_outcome(rotate_left(value), value >= 0x80)
}

pub fn sla(value: u8) -> (outcome: AluOutcome)
    ensures
        outcome == sla_outcome(value),
{
    shift_outcome((value % 128) * 2, value >= 0x80)
}

pub fn sra(value: u8) -> (outcome: AluOutcome)
    ensures
        outcome == sra_outcome(value),
{
    shift_outcome(value / 2 + (value / 128) * 128, value % 2 == 1)
}

pub fn test_bit(value: u8, bit: u8) -> (set: bool)
    requires
        bit < 8,
    ensures
        set == bit_is_set(value, bit),
{
    value & (1u8 << bit) != 0
}

pub fn add16(hl: u16, operand: u16, before: FlagSet) -> (outcome: (u16, FlagSet))
    ensures
        outcome.0 == add16_value(hl, operand),
        outcome.1 == add16_flags(hl, operand, before),
{
    let sum: u32 = hl as u32 + operand as u32;
    let value = (sum % 0x10000) as u16;
    (
        value,
        FlagSet {
            s: before.s,
            z: before.z,
            h: (hl % 0x1000) + (operand % 0x1000) > 0x0FFF,
            pv: before.pv,
            n: false,
            c: sum > 0xFFFF,
        },
    )
}

/// The rotates and shifts, bit by bit: the arithmetic above is the rotate and
/// the shifts that the bit operations give.
pub proof fn lemma_shifts_are_bitwise(value: u8)
    ensures
        rotated_left(value) == (value << 1) | (value >> 7),
        rotated_right(value) == (value >> 1) | (value << 7),
        shifted_left(value) == value << 1,
        shifted_right_arithmetic(value) == (value >> 1) | (value & 0x80),
        (value >= 0x80) == (value & 0x80 != 0),
        (value % 2 == 1) == (value & 0x01 != 0),
{
    assert(((value % 128) * 2 + value / 128) as u8 == (value << 1) | (value >> 7)
        && (value / 2 + (value % 2) * 128) as u8 == (value >> 1) | (value << 7)
        && ((value % 128) * 2) as u8 == value << 1
        && (value / 2 + (value / 128) * 128) as u8 == (value >> 1) | (value & 0x80)
        && (value >= 0x80) == (value & 0x80 != 0)
        && (value % 2 == 1) == (value & 0x01 != 0)) by (bit_vector);
}

/// The half-carry and overflow of an addition in the bitwise form: H is the
/// carry out of the low nibbles, and P/V is set exactly when both operands
/// have the same sign and the sum has the other.
pub proof fn lemma_add_flags_bitwise(a: u8, x: u8)
    ensures
        add_outcome(a, x, false).flags.h == ((a & 0x0F) + (x & 0x0F) > 0x0F),
        add_outcome(a, x, false).flags.pv == ((!(a ^ x)) & (a ^ add_outcome(a, x, false).value)
            & 0x80 != 0),
        add_outcome(a, x, false).flags.s == (add_outcome(a, x, false).value & 0x80 != 0),
{
    let r = add_outcome(a, x, false).value;
    assert(a % 16 == a & 0x0F && x % 16 == x & 0x0F) by (bit_vector);
    assert(r == ((a as u16 + x as u16) % 256) as u8);
    assert((r >= 0x80) == (r & 0x80 != 0)) by (bit_vector);
    assert(((!(a ^ x)) & (a ^ r) & 0x80 != 0) == ((a >= 128) == (x >= 128) && (a >= 128) != (r
        >= 128))) by (bit_vector);
}

} // verus!
