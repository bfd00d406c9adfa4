use msx_emulator::components::alu::{
    add16, add_with_carry, alu, logic, rlc, rotate_left, rotate_right, sla, sra, sub_with_carry,
    test_bit, AluOp,
};
use msx_emulator::components::flags::{
    assign_flag, pack, parity, test_flag, unpack, Flag, FlagSet,
};

const CLEAR: FlagSet = FlagSet { s: false, z: false, h: false, pv: false, n: false, c: false };

#[test]
fn parity_is_even_popcount() {
    for value in 0..=255u8 {
        assert_eq!(parity(value), value.count_ones() & 1 == 0, "{:#04X}", value);
    }
    assert!(parity(0x00));
    assert!(!parity(0x01));
    assert!(parity(0x03));
    assert!(!parity(0x80));
    assert!(parity(0xFF));
}

#[test]
fn flag_bit_positions() {
    assert_eq!(Flag::C.mask(), 0x01);
    assert_eq!(Flag::N.mask(), 0x02);
    assert_eq!(Flag::P.mask(), 0x04);
    assert_eq!(Flag::H.mask(), 0x10);
    assert_eq!(Flag::Z.mask(), 0x40);
    assert_eq!(Flag::S.mask(), 0x80);
    assert_eq!(assign_flag(0x00, Flag::Z, true), 0x40);
    assert_eq!(assign_flag(0xFF, Flag::Z, false), 0xBF);
    assert!(test_flag(0x40, Flag::Z));
    assert!(!test_flag(0xBF, Flag::Z));
}

#[test]
fn pack_then_unpack_gives_the_flags() {
    let all = FlagSet { s: true, z: true, h: true, pv: true, n: true, c: true };
    assert_eq!(pack(0x00, all), 0xD7);
    assert_eq!(pack(0xFF, CLEAR), 0x28);
    assert_eq!(pack(0x28, all), 0xFF);
    let some = FlagSet { s: true, z: false, h: true, pv: false, n: true, c: false };
    for f in [0x00u8, 0x28, 0x55, 0xAA, 0xFF] {
        assert_eq!(unpack(pack(f, some)), some);
        assert_eq!(pack(f, some) & 0x28, f & 0x28);
    }
}

#[test]
fn addition() {
    let outcome = add_with_carry(0x0F, 0x01, false);
    assert_eq!(outcome.value, 0x10);
    assert_eq!(outcome.flags, FlagSet { h: true, ..CLEAR });
    let outcome = add_with_carry(0xFF, 0xFF, true);
    assert_eq!(outcome.value, 0xFF);
    assert_eq!(outcome.flags, FlagSet { s: true, h: true, c: true, ..CLEAR });
    let outcome = add_with_carry(0x80, 0x80, false);
    assert_eq!(outcome.value, 0x00);
    assert_eq!(outcome.flags, FlagSet { z: true, pv: true, c: true, ..CLEAR });
    let outcome = add_with_carry(0x7F, 0x00, true);
    assert_eq!(outcome.value, 0x80);
    assert_eq!(outcome.flags, FlagSet { s: true, h: true, pv: true, ..CLEAR });
}

#[test]
fn subtraction() {
    let outcome = sub_with_carry(0x10, 0x01, false);
    assert_eq!(outcome.value, 0x0F);
    assert_eq!(outcome.flags, FlagSet { h: true, n: true, ..CLEAR });
    let outcome = sub_with_carry(0x7F, 0xFF, false);
    assert_eq!(outcome.value, 0x80);
    assert_eq!(outcome.flags, FlagSet { s: true, pv: true, n: true, c: true, ..CLEAR });
    let outcome = sub_with_carry(0x00, 0xFF, true);
    assert_eq!(outcome.value, 0x00);
    assert_eq!(outcome.flags, FlagSet { z: true, h: true, n: true, c: true, ..CLEAR });
}

#[test]
fn operations_by_kind() {
    assert_eq!(alu(AluOp::Add, 1, 2, true).value, 3);
    assert_eq!(alu(AluOp::Adc, 1, 2, true).value, 4);
    assert_eq!(alu(AluOp::Sub, 5, 2, true).value, 3);
    assert_eq!(alu(AluOp::Sbc, 5, 2, true).value, 2);
    assert_eq!(alu(AluOp::And, 0x0F, 0x3C, false), logic(0x0C, true));
    assert_eq!(alu(AluOp::Xor, 0x0F, 0x3C, false), logic(0x33, false));
    assert_eq!(alu(AluOp::Or, 0x0F, 0x3C, false), logic(0x3F, false));
    assert_eq!(alu(AluOp::Cp, 5, 5, true), sub_with_carry(5, 5, false));
    assert_eq!(logic(0x0C, true).flags, FlagSet { h: true, pv: true, ..CLEAR });
}

#[test]
fn rotates_and_shifts() {
    for value in 0..=255u8 {
        assert_eq!(rotate_left(value), value.rotate_left(1));
        assert_eq!(rotate_right(value), value.rotate_right(1));
        assert_eq!(rlc(value).value, value.rotate_left(1));
        assert_eq!(rlc(value).flags.c, value & 0x80 != 0);
        assert_eq!(sla(value).value, value << 1);
        assert_eq!(sla(value).flags.c, value & 0x80 != 0);
        assert_eq!(sra(value).value, ((value as i8) >> 1) as u8);
        assert_eq!(sra(value).flags.c, value & 0x01 != 0);
        assert_eq!(sra(value).flags.pv, parity(sra(value).value));
    }
    assert!(test_bit(0x80, 7));
    assert!(!test_bit(0x80, 6));
}

#[test]
fn sixteen_bit_addition() {
    let before = FlagSet { s: true, z: true, pv: true, n: true, ..CLEAR };
    let (value, flags) = add16(0x0800, 0x0800, before);
    assert_eq!(value, 0x1000);
    assert_eq!(flags, FlagSet { s: true, z: true, h: true, pv: true, ..CLEAR });
    let (value, flags) = add16(0x8000, 0x8000, CLEAR);
    assert_eq!(value, 0x0000);
    assert_eq!(flags, FlagSet { c: true, ..CLEAR });
}

#[test]
fn addition_overflow_is_signed_overflow() {
    for a in 0..=255u8 {
        for x in [0x00u8, 0x01, 0x7F, 0x80, 0xFF] {
            let outcome = add_with_carry(a, x, false);
            let signed = a as i8 as i16 + x as i8 as i16;
            assert_eq!(outcome.flags.pv, !(-128..=127).contains(&signed));
            let outcome = sub_with_carry(a, x, false);
            let signed = a as i8 as i16 - x as i8 as i16;
            assert_eq!(outcome.flags.pv, !(-128..=127).contains(&signed));
        }
    }
}
