use msx_emulator::components::bus::Device;
use msx_emulator::components::cpu::Z80;
use msx_emulator::components::flags::Flag;
use msx_emulator::components::memory::{Memory, WriteMode};
use msx_emulator::components::ppi::Ppi;
use msx_emulator::components::sound::AY38910;
use msx_emulator::components::vdp::TMS9918;
use msx_emulator::error::MachineError;

fn cpu_with(program: &[u8]) -> Z80 {
    let mut memory = Memory::new();
    memory.load_rom(0, program);
    Z80::new(memory)
}

fn flags(cpu: &Z80) -> (bool, bool, bool, bool, bool, bool) {
    (
        cpu.get_flag(Flag::S),
        cpu.get_flag(Flag::Z),
        cpu.get_flag(Flag::H),
        cpu.get_flag(Flag::P),
        cpu.get_flag(Flag::N),
        cpu.get_flag(Flag::C),
    )
}

#[test]
fn xor_a_zeroes_a_and_sets_z() {
    let mut cpu = cpu_with(&[0xAF]);
    cpu.a = 0xAB;
    cpu.f = 0x00;
    assert_eq!(cpu.execute_cycle(), Ok(()));
    assert_eq!(cpu.a, 0x00);
    assert_eq!(flags(&cpu), (false, true, false, true, false, false));
    assert_eq!(cpu.f, 0x44);
    assert_eq!(cpu.pc, 1);
}

#[test]
fn ld_hl_then_inc_hl() {
    let mut cpu = cpu_with(&[0x21, 0x34, 0x12, 0x23]);
    assert_eq!(cpu.execute_cycle(), Ok(()));
    assert_eq!(cpu.execute_cycle(), Ok(()));
    assert_eq!(cpu.h, 0x12);
    assert_eq!(cpu.l, 0x35);
    assert_eq!(cpu.pc, 4);
    assert_eq!(cpu.get_hl(), 0x1235);
}

#[test]
fn call_and_ret_round_trip() {
    let mut memory = Memory::new();
    memory.load_rom(0x0000, &[0xCD, 0x10, 0x00]);
    memory.load_rom(0x0010, &[0xC9]);
    let mut cpu = Z80::new(memory);
    cpu.sp = 0xF000;
    assert_eq!(cpu.execute_cycle(), Ok(()));
    assert_eq!(cpu.pc, 0x0010);
    assert_eq!(cpu.sp, 0xEFFE);
    assert_eq!(cpu.memory.read_byte(0xEFFE), 0x03);
    assert_eq!(cpu.memory.read_byte(0xEFFF), 0x00);
    assert_eq!(cpu.execute_cycle(), Ok(()));
    assert_eq!(cpu.pc, 0x0003);
    assert_eq!(cpu.sp, 0xF000);
}

#[test]
fn every_successful_step_counts_one_cycle() {
    let mut cpu = cpu_with(&[0x00, 0x3E, 0x05, 0x76]);
    for expected in 1..=6u64 {
        assert_eq!(cpu.execute_cycle(), Ok(()));
        assert_eq!(cpu.cycles, expected);
    }
    assert!(cpu.halted);
    assert_eq!(cpu.pc, 4);
}

#[test]
fn failing_step_leaves_cycles_and_state() {
    let mut cpu = cpu_with(&[0x08]);
    assert_eq!(
        cpu.execute_cycle(),
        Err(MachineError::UnknownOpcode { addr: 0, byte: 0x08 })
    );
    assert_eq!(cpu.cycles, 0);
    assert_eq!(cpu.pc, 0);
}

#[test]
fn unknown_byte_after_prefix_names_the_second_byte() {
    let mut cpu = cpu_with(&[0xED, 0x00]);
    assert_eq!(
        cpu.execute_cycle(),
        Err(MachineError::UnknownOpcode { addr: 1, byte: 0x00 })
    );
    let mut cpu = cpu_with(&[0xDD, 0x21]);
    assert_eq!(
        cpu.execute_cycle(),
        Err(MachineError::UnknownOpcode { addr: 1, byte: 0x21 })
    );
}

#[test]
fn step_limit_is_reached() {
    let mut cpu = cpu_with(&[0x00, 0x00, 0x00, 0x00]);
    cpu.max_cycles = Some(3);
    assert_eq!(cpu.execute_cycle(), Ok(()));
    assert_eq!(cpu.execute_cycle(), Ok(()));
    assert_eq!(cpu.execute_cycle(), Err(MachineError::StepLimitReached));
    assert_eq!(cpu.cycles, 2);
    assert_eq!(cpu.pc, 2);
    assert!(MachineError::StepLimitReached.is_recoverable());
}

#[test]
fn step_counter_at_its_end_is_a_step_limit() {
    let mut cpu = cpu_with(&[0x00]);
    cpu.cycles = u64::MAX;
    assert_eq!(cpu.execute_cycle(), Err(MachineError::StepLimitReached));
}

#[test]
fn push_then_pop_returns_the_word() {
    let mut cpu = cpu_with(&[]);
    cpu.sp = 0xF000;
    assert_eq!(cpu.push(0xBEEF), Ok(()));
    assert_eq!(cpu.sp, 0xEFFE);
    assert_eq!(cpu.memory.read_byte(0xEFFE), 0xEF);
    assert_eq!(cpu.memory.read_byte(0xEFFF), 0xBE);
    assert_eq!(cpu.pop(), 0xBEEF);
    assert_eq!(cpu.sp, 0xF000);
}

#[test]
fn push_wraps_the_stack_pointer() {
    let mut cpu = cpu_with(&[]);
    cpu.memory.mode = WriteMode::Permissive;
    cpu.sp = 0x0001;
    assert_eq!(cpu.push(0x1234), Ok(()));
    assert_eq!(cpu.sp, 0xFFFF);
    assert_eq!(cpu.memory.read_byte(0xFFFF), 0x34);
    // The high byte went to address 0, in ROM, where a permissive memory drops it.
    assert_eq!(cpu.memory.read_byte(0x0000), 0xFF);
    assert_eq!(cpu.pop(), 0xFF34);
    assert_eq!(cpu.sp, 0x0001);
}

#[test]
fn push_into_the_cartridge_slot_is_lost() {
    let mut cpu = cpu_with(&[]);
    cpu.sp = 0x9002;
    assert_eq!(cpu.push(0x1234), Ok(()));
    assert_eq!(cpu.sp, 0x9000);
    assert_eq!(cpu.pop(), 0xFFFF);
}

#[test]
fn push_into_rom_fails_and_writes_nothing() {
    let mut cpu = cpu_with(&[]);
    cpu.sp = 0x8001;
    assert_eq!(cpu.push(0x1234), Err(MachineError::WriteToRom { addr: 0x7FFF }));
    assert_eq!(cpu.sp, 0x8001);
    let mut cpu = cpu_with(&[]);
    cpu.sp = 0x0001;
    assert_eq!(cpu.push(0x1234), Err(MachineError::WriteToRom { addr: 0x0000 }));
    assert_eq!(cpu.memory.read_byte(0xFFFF), 0xFF);
    assert_eq!(cpu.sp, 0x0001);
}

#[test]
fn register_pairs_round_trip() {
    let mut cpu = cpu_with(&[]);
    cpu.set_bc(0x1234);
    assert_eq!((cpu.b, cpu.c), (0x12, 0x34));
    cpu.set_de(0x5678);
    assert_eq!((cpu.d, cpu.e), (0x56, 0x78));
    cpu.set_hl(0x9ABC);
    assert_eq!((cpu.h, cpu.l), (0x9A, 0xBC));
    cpu.set_af(0xDEF0);
    assert_eq!((cpu.a, cpu.f), (0xDE, 0xF0));
    assert_eq!(cpu.get_bc(), 0x1234);
    assert_eq!(cpu.get_de(), 0x5678);
    assert_eq!(cpu.get_hl(), 0x9ABC);
    assert_eq!(cpu.get_af(), 0xDEF0);
    cpu.b = 0xAA;
    cpu.c = 0x55;
    assert_eq!(cpu.get_bc(), 0xAA55);
    cpu.a = 0x01;
    cpu.f = 0x02;
    assert_eq!(cpu.get_af(), 0x0102);
}

#[test]
fn di_then_ei() {
    let mut cpu = cpu_with(&[0xF3, 0xFB]);
    cpu.iff1 = true;
    assert_eq!(cpu.execute_cycle(), Ok(()));
    assert!(!cpu.iff1);
    assert_eq!(cpu.execute_cycle(), Ok(()));
    assert!(cpu.iff1);
    assert_eq!(cpu.pc, 2);
}

#[test]
fn add_sets_overflow_and_half_carry() {
    let mut cpu = cpu_with(&[0xC6, 0x01]);
    cpu.a = 0x7F;
    assert_eq!(cpu.execute_cycle(), Ok(()));
    assert_eq!(cpu.a, 0x80);
    assert_eq!(flags(&cpu), (true, false, true, true, false, false));
    assert_eq!(cpu.f, 0x94);
    assert_eq!(cpu.pc, 2);
}

#[test]
fn add_sets_carry_and_zero() {
    let mut cpu = cpu_with(&[0x80]);
    cpu.a = 0xFF;
    cpu.b = 0x01;
    assert_eq!(cpu.execute_cycle(), Ok(()));
    assert_eq!(cpu.a, 0x00);
    assert_eq!(flags(&cpu), (false, true, true, false, false, true));
}

#[test]
fn add_of_opposite_signs_never_overflows() {
    let mut cpu = cpu_with(&[0x80]);
    cpu.a = 0x7F;
    cpu.b = 0x80;
    assert_eq!(cpu.execute_cycle(), Ok(()));
    assert_eq!(cpu.a, 0xFF);
    assert_eq!(flags(&cpu), (true, false, false, false, false, false));
}

#[test]
fn adc_adds_the_carry() {
    let mut cpu = cpu_with(&[0xCE, 0x0F]);
    cpu.a = 0x00;
    cpu.f = 0x01;
    assert_eq!(cpu.execute_cycle(), Ok(()));
    assert_eq!(cpu.a, 0x10);
    assert_eq!(flags(&cpu), (false, false, true, false, false, false));
}

#[test]
fn adc_with_b_uses_b() {
    let mut cpu = cpu_with(&[0x88]);
    cpu.a = 0x10;
    cpu.b = 0x22;
    cpu.f = 0x01;
    assert_eq!(cpu.execute_cycle(), Ok(()));
    assert_eq!(cpu.a, 0x33);
}

#[test]
fn sub_borrows() {
    let mut cpu = cpu_with(&[0xD6, 0x01]);
    cpu.a = 0x00;
    assert_eq!(cpu.execute_cycle(), Ok(()));
    assert_eq!(cpu.a, 0xFF);
    assert_eq!(flags(&cpu), (true, false, true, false, true, true));
    assert_eq!(cpu.f, 0x93);
}

#[test]
fn sub_l_uses_l() {
    let mut cpu = cpu_with(&[0x95]);
    cpu.a = 0x10;
    cpu.h = 0x01;
    cpu.l = 0x05;
    assert_eq!(cpu.execute_cycle(), Ok(()));
    assert_eq!(cpu.a, 0x0B);
}

#[test]
fn sub_overflows_from_minus_128() {
    let mut cpu = cpu_with(&[0x90]);
    cpu.a = 0x80;
    cpu.b = 0x01;
    assert_eq!(cpu.execute_cycle(), Ok(()));
    assert_eq!(cpu.a, 0x7F);
    assert_eq!(flags(&cpu), (false, false, true, true, true, false));
}

#[test]
fn sbc_subtracts_the_carry() {
    let mut cpu = cpu_with(&[0xDE, 0x00]);
    cpu.a = 0x00;
    cpu.f = 0x01;
    assert_eq!(cpu.execute_cycle(), Ok(()));
    assert_eq!(cpu.a, 0xFF);
    assert_eq!(flags(&cpu), (true, false, true, false, true, true));
}

#[test]
fn cp_keeps_a() {
    let mut cpu = cpu_with(&[0xFE, 0x42]);
    cpu.a = 0x42;
    assert_eq!(cpu.execute_cycle(), Ok(()));
    assert_eq!(cpu.a, 0x42);
    assert_eq!(flags(&cpu), (false, true, false, false, true, false));
    assert_eq!(cpu.pc, 2);
}

#[test]
fn cp_with_memory_at_hl() {
    let mut cpu = cpu_with(&[0xBE]);
    cpu.a = 0x10;
    cpu.set_hl(0xC000);
    cpu.memory.data[0xC000] = 0x20;
    assert_eq!(cpu.execute_cycle(), Ok(()));
    assert_eq!(cpu.a, 0x10);
    assert_eq!(flags(&cpu), (true, false, false, false, true, true));
}

#[test]
fn and_sets_h_and_parity() {
    let mut cpu = cpu_with(&[0xE6, 0x0F]);
    cpu.a = 0x3C;
    cpu.f = 0x03;
    assert_eq!(cpu.execute_cycle(), Ok(()));
    assert_eq!(cpu.a, 0x0C);
    assert_eq!(flags(&cpu), (false, false, true, true, false, false));
}

#[test]
fn or_and_xor_clear_h() {
    let mut cpu = cpu_with(&[0xB0, 0xA9]);
    cpu.a = 0x80;
    cpu.b = 0x01;
    cpu.c = 0x81;
    cpu.f = 0xFF;
    assert_eq!(cpu.execute_cycle(), Ok(()));
    assert_eq!(cpu.a, 0x81);
    assert_eq!(flags(&cpu), (true, false, false, true, false, false));
    // Bits 3 and 5 of F hold no flag and stay as they were.
    assert_eq!(cpu.f & 0x28, 0x28);
    assert_eq!(cpu.execute_cycle(), Ok(()));
    assert_eq!(cpu.a, 0x00);
    assert_eq!(flags(&cpu), (false, true, false, true, false, false));
}

#[test]
fn logic_with_one_bit_set_has_odd_parity() {
    let mut cpu = cpu_with(&[0xF6, 0x01]);
    cpu.a = 0x00;
    assert_eq!(cpu.execute_cycle(), Ok(()));
    assert_eq!(cpu.a, 0x01);
    assert!(!cpu.get_flag(Flag::P));
}

#[test]
fn inc_and_dec_keep_carry() {
    let mut cpu = cpu_with(&[0x3C, 0x05, 0x0C]);
    cpu.a = 0x7F;
    cpu.b = 0x00;
    cpu.c = 0xFF;
    cpu.f = 0x01;
    assert_eq!(cpu.execute_cycle(), Ok(()));
    assert_eq!(cpu.a, 0x80);
    assert_eq!(flags(&cpu), (true, false, true, true, false, true));
    assert_eq!(cpu.execute_cycle(), Ok(()));
    assert_eq!(cpu.b, 0xFF);
    assert_eq!(flags(&cpu), (true, false, true, false, true, true));
    assert_eq!(cpu.execute_cycle(), Ok(()));
    assert_eq!(cpu.c, 0x00);
    assert_eq!(flags(&cpu), (false, true, true, false, false, true));
}

#[test]
fn dec_to_0x80_sets_pv() {
    let mut cpu = cpu_with(&[0x3D]);
    cpu.a = 0x81;
    assert_eq!(cpu.execute_cycle(), Ok(()));
    assert_eq!(cpu.a, 0x80);
    assert_eq!(flags(&cpu), (true, false, false, true, true, false));
}

#[test]
fn inc_and_dec_memory_at_hl() {
    let mut cpu = cpu_with(&[0x34, 0x35, 0x35]);
    cpu.set_hl(0xD000);
    cpu.memory.data[0xD000] = 0x0F;
    assert_eq!(cpu.execute_cycle(), Ok(()));
    assert_eq!(cpu.memory.read_byte(0xD000), 0x10);
    assert!(cpu.get_flag(Flag::H));
    assert_eq!(cpu.execute_cycle(), Ok(()));
    assert_eq!(cpu.memory.read_byte(0xD000), 0x0F);
    assert!(cpu.get_flag(Flag::H));
    assert!(cpu.get_flag(Flag::N));
    assert_eq!(cpu.execute_cycle(), Ok(()));
    assert_eq!(cpu.memory.read_byte(0xD000), 0x0E);
    assert!(!cpu.get_flag(Flag::H));
}

#[test]
fn inc_memory_in_rom_fails_atomically() {
    let mut cpu = cpu_with(&[0x34]);
    cpu.set_hl(0x4000);
    cpu.f = 0x00;
    assert_eq!(cpu.execute_cycle(), Err(MachineError::WriteToRom { addr: 0x4000 }));
    assert_eq!(cpu.f, 0x00);
    assert_eq!(cpu.pc, 0);
    assert_eq!(cpu.cycles, 0);
    assert!(MachineError::WriteToRom { addr: 0x4000 }.is_fatal());
}

#[test]
fn permissive_memory_ignores_rom_writes() {
    let mut cpu = cpu_with(&[0x36, 0x55]);
    cpu.memory.mode = WriteMode::Permissive;
    cpu.set_hl(0x0000);
    assert_eq!(cpu.execute_cycle(), Ok(()));
    assert_eq!(cpu.memory.read_byte(0x0000), 0x36);
    assert_eq!(cpu.pc, 2);
}

#[test]
fn sixteen_bit_inc_and_dec() {
    let mut cpu = cpu_with(&[0x03, 0x1B, 0x2B]);
    cpu.set_bc(0xFFFF);
    cpu.set_de(0x0000);
    cpu.set_hl(0x0100);
    cpu.f = 0x00;
    assert_eq!(cpu.execute_cycle(), Ok(()));
    assert_eq!(cpu.get_bc(), 0x0000);
    assert_eq!(cpu.execute_cycle(), Ok(()));
    assert_eq!(cpu.get_de(), 0xFFFF);
    assert_eq!(cpu.execute_cycle(), Ok(()));
    assert_eq!(cpu.get_hl(), 0x00FF);
    assert_eq!(cpu.f, 0x00);
}

#[test]
fn add_hl_sets_h_and_c_only() {
    let mut cpu = cpu_with(&[0x09, 0x39]);
    cpu.set_hl(0x0FFF);
    cpu.set_bc(0x0001);
    cpu.f = 0xC6;
    assert_eq!(cpu.execute_cycle(), Ok(()));
    assert_eq!(cpu.get_hl(), 0x1000);
    assert_eq!(flags(&cpu), (true, true, true, true, false, false));
    cpu.sp = 0xF000;
    assert_eq!(cpu.execute_cycle(), Ok(()));
    assert_eq!(cpu.get_hl(), 0x0000);
    assert_eq!(flags(&cpu), (true, true, false, true, false, true));
}

#[test]
fn cpl_scf_ccf() {
    let mut cpu = cpu_with(&[0x2F, 0x37, 0x3F, 0x3F]);
    cpu.a = 0x0F;
    cpu.f = 0x00;
    assert_eq!(cpu.execute_cycle(), Ok(()));
    assert_eq!(cpu.a, 0xF0);
    assert_eq!(flags(&cpu), (false, false, true, false, true, false));
    assert_eq!(cpu.execute_cycle(), Ok(()));
    assert_eq!(flags(&cpu), (false, false, false, false, false, true));
    assert_eq!(cpu.execute_cycle(), Ok(()));
    assert_eq!(flags(&cpu), (false, false, false, false, false, false));
    assert_eq!(cpu.execute_cycle(), Ok(()));
    assert_eq!(flags(&cpu), (false, false, false, false, false, true));
}

#[test]
fn rlca_and_rrca() {
    let mut cpu = cpu_with(&[0x07, 0x0F, 0x0F]);
    cpu.a = 0x81;
    cpu.f = 0x12;
    assert_eq!(cpu.execute_cycle(), Ok(()));
    assert_eq!(cpu.a, 0x03);
    assert_eq!(flags(&cpu), (false, false, false, false, false, true));
    assert_eq!(cpu.execute_cycle(), Ok(()));
    assert_eq!(cpu.a, 0x81);
    assert!(cpu.get_flag(Flag::C));
    assert_eq!(cpu.execute_cycle(), Ok(()));
    assert_eq!(cpu.a, 0xC0);
    assert!(cpu.get_flag(Flag::C));
}

#[test]
fn loads_between_registers() {
    let mut cpu = cpu_with(&[0x0E, 0x11, 0x41, 0x78, 0x16, 0x22, 0x5A, 0x64, 0x6F]);
    assert_eq!(cpu.execute_cycle(), Ok(()));
    assert_eq!(cpu.c, 0x11);
    assert_eq!(cpu.pc, 2);
    assert_eq!(cpu.execute_cycle(), Ok(()));
    assert_eq!(cpu.b, 0x11);
    assert_eq!(cpu.execute_cycle(), Ok(()));
    assert_eq!(cpu.a, 0x11);
    assert_eq!(cpu.execute_cycle(), Ok(()));
    assert_eq!(cpu.d, 0x22);
    assert_eq!(cpu.pc, 6);
    assert_eq!(cpu.execute_cycle(), Ok(()));
    assert_eq!(cpu.e, 0x22);
    cpu.h = 0x77;
    assert_eq!(cpu.execute_cycle(), Ok(()));
    assert_eq!(cpu.h, 0x77);
    assert_eq!(cpu.execute_cycle(), Ok(()));
    assert_eq!(cpu.l, 0x11);
    assert_eq!(cpu.pc, 9);
}

#[test]
fn loads_through_hl_store_the_named_register() {
    let mut cpu = cpu_with(&[0x73, 0x74, 0x46]);
    cpu.set_hl(0xC010);
    cpu.e = 0xEE;
    assert_eq!(cpu.execute_cycle(), Ok(()));
    assert_eq!(cpu.memory.read_byte(0xC010), 0xEE);
    assert_eq!(cpu.execute_cycle(), Ok(()));
    assert_eq!(cpu.memory.read_byte(0xC010), 0xC0);
    assert_eq!(cpu.execute_cycle(), Ok(()));
    assert_eq!(cpu.b, 0xC0);
}

#[test]
fn loads_through_addresses() {
    let mut cpu = cpu_with(&[
        0x32, 0x00, 0xC0, 0x3A, 0x01, 0xC0, 0x22, 0x10, 0xC0, 0x2A, 0x20, 0xC0, 0x12, 0x0A, 0x1A,
    ]);
    cpu.a = 0x5A;
    cpu.memory.data[0xC001] = 0xA5;
    assert_eq!(cpu.execute_cycle(), Ok(()));
    assert_eq!(cpu.memory.read_byte(0xC000), 0x5A);
    assert_eq!(cpu.execute_cycle(), Ok(()));
    assert_eq!(cpu.a, 0xA5);
    cpu.set_hl(0x1234);
    assert_eq!(cpu.execute_cycle(), Ok(()));
    assert_eq!(cpu.memory.read_byte(0xC010), 0x34);
    assert_eq!(cpu.memory.read_byte(0xC011), 0x12);
    cpu.memory.data[0xC020] = 0x78;
    cpu.memory.data[0xC021] = 0x56;
    assert_eq!(cpu.execute_cycle(), Ok(()));
    assert_eq!(cpu.get_hl(), 0x5678);
    cpu.set_de(0xC030);
    assert_eq!(cpu.execute_cycle(), Ok(()));
    assert_eq!(cpu.memory.read_byte(0xC030), 0xA5);
    cpu.set_bc(0xC000);
    assert_eq!(cpu.execute_cycle(), Ok(()));
    assert_eq!(cpu.a, 0x5A);
    cpu.memory.data[0xC030] = 0x99;
    assert_eq!(cpu.execute_cycle(), Ok(()));
    assert_eq!(cpu.a, 0x99);
    assert_eq!(cpu.pc, 15);
}

#[test]
fn load_pairs_and_sp() {
    let mut cpu = cpu_with(&[0x01, 0x34, 0x12, 0x11, 0x78, 0x56, 0x31, 0x00, 0xE0, 0xF9]);
    assert_eq!(cpu.execute_cycle(), Ok(()));
    assert_eq!(cpu.get_bc(), 0x1234);
    assert_eq!(cpu.execute_cycle(), Ok(()));
    assert_eq!(cpu.get_de(), 0x5678);
    assert_eq!(cpu.execute_cycle(), Ok(()));
    assert_eq!(cpu.sp, 0xE000);
    cpu.set_hl(0xD000);
    assert_eq!(cpu.execute_cycle(), Ok(()));
    assert_eq!(cpu.sp, 0xD000);
    assert_eq!(cpu.pc, 10);
}

#[test]
fn jumps() {
    let mut memory = Memory::new();
    memory.load_rom(0x0000, &[0xC3, 0x00, 0x01]);
    memory.load_rom(0x0100, &[0xCA, 0x00, 0x02, 0xC2, 0x00, 0x02]);
    memory.load_rom(0x0200, &[0xFA, 0x00, 0x03, 0xF2, 0x00, 0x03]);
    memory.load_rom(0x0300, &[0xDA, 0x00, 0x04, 0xD2, 0x00, 0x04]);
    let mut cpu = Z80::new(memory);
    cpu.f = 0x00;
    assert_eq!(cpu.execute_cycle(), Ok(()));
    assert_eq!(cpu.pc, 0x0100);
    assert_eq!(cpu.execute_cycle(), Ok(()));
    assert_eq!(cpu.pc, 0x0103);
    assert_eq!(cpu.execute_cycle(), Ok(()));
    assert_eq!(cpu.pc, 0x0200);
    assert_eq!(cpu.execute_cycle(), Ok(()));
    assert_eq!(cpu.pc, 0x0203);
    assert_eq!(cpu.execute_cycle(), Ok(()));
    assert_eq!(cpu.pc, 0x0300);
    assert_eq!(cpu.execute_cycle(), Ok(()));
    assert_eq!(cpu.pc, 0x0303);
    assert_eq!(cpu.execute_cycle(), Ok(()));
    assert_eq!(cpu.pc, 0x0400);
}

#[test]
fn relative_jumps() {
    let mut memory = Memory::new();
    memory.load_rom(0x0000, &[0x18, 0x0E]);
    memory.load_rom(0x0010, &[0x28, 0x10, 0x20, 0xFC]);
    let mut cpu = Z80::new(memory);
    cpu.f = 0x00;
    assert_eq!(cpu.execute_cycle(), Ok(()));
    assert_eq!(cpu.pc, 0x0010);
    assert_eq!(cpu.execute_cycle(), Ok(()));
    assert_eq!(cpu.pc, 0x0012);
    assert_eq!(cpu.execute_cycle(), Ok(()));
    assert_eq!(cpu.pc, 0x0010);
}

#[test]
fn relative_jump_on_carry() {
    let mut cpu = cpu_with(&[0x38, 0x02, 0x30, 0x7F]);
    cpu.f = 0x00;
    assert_eq!(cpu.execute_cycle(), Ok(()));
    assert_eq!(cpu.pc, 2);
    assert_eq!(cpu.execute_cycle(), Ok(()));
    assert_eq!(cpu.pc, 4 + 0x7F);
}

#[test]
fn backward_jump_wraps_below_zero() {
    let mut cpu = cpu_with(&[0x18, 0x80]);
    assert_eq!(cpu.execute_cycle(), Ok(()));
    assert_eq!(cpu.pc, 0xFF82);
}

#[test]
fn djnz_loops_until_b_is_zero() {
    let mut cpu = cpu_with(&[0x10, 0xFE]);
    cpu.b = 3;
    assert_eq!(cpu.execute_cycle(), Ok(()));
    assert_eq!((cpu.b, cpu.pc), (2, 0));
    assert_eq!(cpu.execute_cycle(), Ok(()));
    assert_eq!((cpu.b, cpu.pc), (1, 0));
    assert_eq!(cpu.execute_cycle(), Ok(()));
    assert_eq!((cpu.b, cpu.pc), (0, 2));
}

#[test]
fn conditional_call_and_return() {
    let mut memory = Memory::new();
    memory.load_rom(0x0000, &[0xCC, 0x00, 0x01, 0xDC, 0x00, 0x01]);
    memory.load_rom(0x0100, &[0xC8, 0xD0, 0xF8, 0xF0, 0xC0, 0xD8]);
    let mut cpu = Z80::new(memory);
    cpu.f = 0x01;
    assert_eq!(cpu.execute_cycle(), Ok(()));
    assert_eq!(cpu.pc, 0x0003);
    assert_eq!(cpu.sp, 0xF000);
    assert_eq!(cpu.execute_cycle(), Ok(()));
    assert_eq!(cpu.pc, 0x0100);
    assert_eq!(cpu.sp, 0xEFFE);
    assert_eq!(cpu.memory.read_word(0xEFFE), 0x0006);
    assert_eq!(cpu.execute_cycle(), Ok(()));
    assert_eq!(cpu.pc, 0x0101);
    assert_eq!(cpu.execute_cycle(), Ok(()));
    assert_eq!(cpu.pc, 0x0102);
    assert_eq!(cpu.execute_cycle(), Ok(()));
    assert_eq!(cpu.pc, 0x0103);
    assert_eq!(cpu.execute_cycle(), Ok(()));
    assert_eq!(cpu.pc, 0x0006);
    assert_eq!(cpu.sp, 0xF000);
}

#[test]
fn restart_pushes_the_next_address() {
    let mut memory = Memory::new();
    memory.load_rom(0x0000, &[0xD7]);
    memory.load_rom(0x0010, &[0xE7]);
    memory.load_rom(0x0020, &[0xFF]);
    let mut cpu = Z80::new(memory);
    assert_eq!(cpu.execute_cycle(), Ok(()));
    assert_eq!(cpu.pc, 0x0010);
    assert_eq!(cpu.memory.read_word(cpu.sp), 0x0001);
    assert_eq!(cpu.execute_cycle(), Ok(()));
    assert_eq!(cpu.pc, 0x0020);
    assert_eq!(cpu.memory.read_word(cpu.sp), 0x0011);
    assert_eq!(cpu.execute_cycle(), Ok(()));
    assert_eq!(cpu.pc, 0x0038);
    assert_eq!(cpu.memory.read_word(cpu.sp), 0x0021);
    assert_eq!(cpu.sp, 0xEFFA);
}

#[test]
fn push_and_pop_pairs() {
    let mut cpu = cpu_with(&[0xC5, 0xF5, 0xD1, 0xE1]);
    cpu.set_bc(0x1122);
    cpu.set_af(0x3344);
    assert_eq!(cpu.execute_cycle(), Ok(()));
    assert_eq!(cpu.execute_cycle(), Ok(()));
    assert_eq!(cpu.sp, 0xEFFC);
    assert_eq!(cpu.execute_cycle(), Ok(()));
    assert_eq!(cpu.get_de(), 0x3344);
    assert_eq!(cpu.execute_cycle(), Ok(()));
    assert_eq!(cpu.get_hl(), 0x1122);
    assert_eq!(cpu.sp, 0xF000);
    assert_eq!(cpu.pc, 4);
}

#[test]
fn exchanges() {
    let mut cpu = cpu_with(&[0xEB, 0xD9, 0xD9, 0xE3]);
    cpu.set_de(0x1111);
    cpu.set_hl(0x2222);
    assert_eq!(cpu.execute_cycle(), Ok(()));
    assert_eq!(cpu.get_de(), 0x2222);
    assert_eq!(cpu.get_hl(), 0x1111);
    cpu.set_bc(0x3333);
    assert_eq!(cpu.execute_cycle(), Ok(()));
    assert_eq!((cpu.get_bc(), cpu.get_de(), cpu.get_hl()), (0, 0, 0));
    assert_eq!((cpu.b_alt, cpu.c_alt, cpu.d_alt, cpu.e_alt), (0x33, 0x33, 0x22, 0x22));
    assert_eq!((cpu.h_alt, cpu.l_alt), (0x11, 0x11));
    assert_eq!(cpu.execute_cycle(), Ok(()));
    assert_eq!((cpu.get_bc(), cpu.get_de(), cpu.get_hl()), (0x3333, 0x2222, 0x1111));
    cpu.sp = 0xE000;
    cpu.memory.data[0xE000] = 0xCD;
    cpu.memory.data[0xE001] = 0xAB;
    assert_eq!(cpu.execute_cycle(), Ok(()));
    assert_eq!(cpu.get_hl(), 0xABCD);
    assert_eq!(cpu.memory.read_word(0xE000), 0x1111);
    assert_eq!(cpu.sp, 0xE000);
}

#[test]
fn halt_idles_until_an_interrupt_is_accepted() {
    let mut memory = Memory::new();
    memory.load_rom(0x0000, &[0x76, 0x00]);
    memory.load_rom(0x0038, &[0x00]);
    let mut cpu = Z80::new(memory);
    assert_eq!(cpu.execute_cycle(), Ok(()));
    assert!(cpu.halted);
    assert_eq!(cpu.pc, 1);
    assert_eq!(cpu.execute_cycle(), Ok(()));
    assert_eq!((cpu.pc, cpu.cycles), (1, 2));
    cpu.request_interrupt();
    // Interrupts are disabled: the request waits and the processor stays halted.
    assert_eq!(cpu.execute_cycle(), Ok(()));
    assert!(cpu.halted);
    assert!(cpu.interrupt_request);
    cpu.iff1 = true;
    assert_eq!(cpu.execute_cycle(), Ok(()));
    assert!(!cpu.halted);
    assert!(!cpu.iff1);
    assert!(!cpu.interrupt_request);
    assert_eq!(cpu.pc, 0x0038);
    assert_eq!(cpu.sp, 0xEFFE);
    assert_eq!(cpu.memory.read_word(0xEFFE), 0x0001);
    assert_eq!(cpu.cycles, 4);
}

#[test]
fn interrupt_is_taken_between_instructions() {
    let mut cpu = cpu_with(&[0xFB, 0x3E, 0x01]);
    cpu.request_interrupt();
    assert_eq!(cpu.execute_cycle(), Ok(()));
    assert!(cpu.iff1);
    assert_eq!(cpu.pc, 1);
    assert_eq!(cpu.execute_cycle(), Ok(()));
    assert_eq!(cpu.pc, 0x0038);
    assert_eq!(cpu.a, 0x00);
    assert_eq!(cpu.memory.read_word(cpu.sp), 0x0001);
}

#[test]
fn im_1_sets_the_mode() {
    let mut cpu = cpu_with(&[0xED, 0x56]);
    assert_eq!(cpu.execute_cycle(), Ok(()));
    assert_eq!(cpu.im, 1);
    assert_eq!(cpu.pc, 2);
}

#[test]
fn in_and_out_go_through_the_bus() {
    let mut cpu = cpu_with(&[0xD3, 0xA8, 0x3E, 0x00, 0xDB, 0xA8, 0xDB, 0x77, 0xD3, 0x77]);
    cpu.register_device(Device::Vdp(TMS9918::new()));
    cpu.register_device(Device::Psg(AY38910::new()));
    cpu.register_device(Device::Ppi(Ppi::new()));
    cpu.a = 0x5A;
    assert_eq!(cpu.execute_cycle(), Ok(()));
    assert_eq!(cpu.execute_cycle(), Ok(()));
    assert_eq!(cpu.a, 0x00);
    assert_eq!(cpu.execute_cycle(), Ok(()));
    assert_eq!(cpu.a, 0x5A);
    assert_eq!(cpu.bus.invalid_port_count, 0);
    assert_eq!(cpu.execute_cycle(), Ok(()));
    assert_eq!(cpu.a, 0xFF);
    assert_eq!(cpu.bus.invalid_port_count, 1);
    assert_eq!(cpu.bus.last_invalid_port, Some(0x77));
    assert_eq!(cpu.execute_cycle(), Ok(()));
    assert_eq!(cpu.bus.invalid_port_count, 2);
    assert_eq!(cpu.pc, 10);
}

#[test]
fn cb_rotates_and_shifts() {
    let mut cpu = cpu_with(&[0xCB, 0x00, 0xCB, 0x21, 0xCB, 0x2A, 0xCB, 0x33, 0xCB, 0x18]);
    cpu.b = 0x81;
    cpu.c = 0x80;
    cpu.d = 0x81;
    cpu.e = 0x40;
    assert_eq!(cpu.execute_cycle(), Ok(()));
    assert_eq!(cpu.b, 0x03);
    assert_eq!(flags(&cpu), (false, false, false, true, false, true));
    assert_eq!(cpu.execute_cycle(), Ok(()));
    assert_eq!(cpu.c, 0x00);
    assert_eq!(flags(&cpu), (false, true, false, true, false, true));
    assert_eq!(cpu.execute_cycle(), Ok(()));
    assert_eq!(cpu.d, 0xC0);
    assert_eq!(flags(&cpu), (true, false, false, true, false, true));
    assert_eq!(cpu.execute_cycle(), Ok(()));
    assert_eq!(cpu.e, 0x80);
    assert_eq!(flags(&cpu), (true, false, false, false, false, false));
    // 0x18 lies in the range that this core rotates left.
    assert_eq!(cpu.execute_cycle(), Ok(()));
    assert_eq!(cpu.b, 0x06);
    assert_eq!(cpu.pc, 10);
}

#[test]
fn cb_bit_res_set() {
    let mut cpu = cpu_with(&[0xCB, 0x7F, 0xCB, 0x47, 0xCB, 0xBF, 0xCB, 0xC7, 0xCB, 0xDE, 0xCB, 0x5E]);
    cpu.a = 0x80;
    cpu.f = 0x01;
    assert_eq!(cpu.execute_cycle(), Ok(()));
    assert_eq!(flags(&cpu), (true, false, true, false, false, true));
    assert_eq!(cpu.execute_cycle(), Ok(()));
    assert_eq!(flags(&cpu), (false, true, true, true, false, true));
    assert_eq!(cpu.execute_cycle(), Ok(()));
    assert_eq!(cpu.a, 0x00);
    assert_eq!(cpu.execute_cycle(), Ok(()));
    assert_eq!(cpu.a, 0x01);
    cpu.set_hl(0xC100);
    cpu.memory.data[0xC100] = 0x00;
    assert_eq!(cpu.execute_cycle(), Ok(()));
    assert_eq!(cpu.memory.read_byte(0xC100), 0x08);
    assert_eq!(cpu.execute_cycle(), Ok(()));
    assert!(!cpu.get_flag(Flag::Z));
    assert_eq!(cpu.pc, 12);
}

#[test]
fn ldir_moves_a_block() {
    let mut cpu = cpu_with(&[0xED, 0xB0, 0x01, 0x02, 0x03]);
    cpu.set_hl(0x0002);
    cpu.set_de(0xC000);
    cpu.set_bc(0x0003);
    cpu.f = 0xFF;
    assert_eq!(cpu.execute_cycle(), Ok(()));
    assert_eq!(cpu.memory.read_byte(0xC000), 0x01);
    assert_eq!(cpu.memory.read_byte(0xC001), 0x02);
    assert_eq!(cpu.memory.read_byte(0xC002), 0x03);
    assert_eq!(cpu.memory.read_byte(0xC003), 0xFF);
    assert_eq!(cpu.get_hl(), 0x0005);
    assert_eq!(cpu.get_de(), 0xC003);
    assert_eq!(cpu.get_bc(), 0x0000);
    assert_eq!(flags(&cpu), (true, true, false, false, false, true));
    assert_eq!(cpu.pc, 2);
    assert_eq!(cpu.cycles, 1);
}

#[test]
fn ldir_into_rom_fails_before_it_moves_anything() {
    let mut cpu = cpu_with(&[0xED, 0xB0]);
    cpu.set_hl(0xC000);
    cpu.set_de(0xFFFF);
    cpu.set_bc(0x0002);
    cpu.memory.data[0xC000] = 0x12;
    assert_eq!(cpu.execute_cycle(), Err(MachineError::WriteToRom { addr: 0x0000 }));
    assert_eq!(cpu.memory.read_byte(0xFFFF), 0xFF);
    assert_eq!(cpu.get_bc(), 0x0002);
    let mut cpu = cpu_with(&[0xED, 0xB0]);
    cpu.set_de(0x1000);
    cpu.set_bc(0x0001);
    assert_eq!(cpu.execute_cycle(), Err(MachineError::WriteToRom { addr: 0x1000 }));
}

#[test]
fn ldir_with_zero_count_moves_64k() {
    let mut cpu = cpu_with(&[0xED, 0xB0]);
    cpu.memory.mode = WriteMode::Permissive;
    cpu.set_hl(0xC000);
    cpu.set_de(0xC001);
    cpu.set_bc(0x0000);
    cpu.memory.data[0xC000] = 0x42;
    assert_eq!(cpu.execute_cycle(), Ok(()));
    assert_eq!(cpu.get_bc(), 0);
    assert_eq!(cpu.get_hl(), 0xC000);
    assert_eq!(cpu.get_de(), 0xC001);
    assert_eq!(cpu.memory.read_byte(0xC001), 0x42);
    assert_eq!(cpu.memory.read_byte(0xFFFF), 0x42);
}

#[test]
fn outi_in_both_forms() {
    let mut cpu = cpu_with(&[0xED, 0xA3]);
    cpu.e = 0xFF;
    assert_eq!(cpu.execute_cycle(), Ok(()));
    assert_eq!(cpu.e, 0xEF);
    assert_eq!(cpu.pc, 2);

    let mut cpu = cpu_with(&[0xED, 0xA3]);
    cpu.faithful_outi = true;
    cpu.register_device(Device::Ppi(Ppi::new()));
    cpu.b = 0x01;
    cpu.c = 0xA8;
    cpu.e = 0xFF;
    cpu.set_hl(0xC000);
    cpu.memory.data[0xC000] = 0x3C;
    assert_eq!(cpu.execute_cycle(), Ok(()));
    assert_eq!(cpu.e, 0xFF);
    assert_eq!(cpu.b, 0x00);
    assert_eq!(cpu.get_hl(), 0xC001);
    assert_eq!(cpu.bus.input(0xA8), 0x3C);
    assert!(cpu.get_flag(Flag::Z));
    assert!(cpu.get_flag(Flag::N));
}

#[test]
fn cp_with_index_registers() {
    let mut cpu = cpu_with(&[0xDD, 0xBE, 0x02, 0xFD, 0xBE, 0xFF]);
    cpu.ix = 0xC000;
    cpu.iy = 0xC000;
    cpu.memory.data[0xC002] = 0x10;
    cpu.memory.data[0xBFFF] = 0x11;
    cpu.a = 0x10;
    assert_eq!(cpu.execute_cycle(), Ok(()));
    assert_eq!(cpu.pc, 3);
    assert!(cpu.get_flag(Flag::Z));
    assert_eq!(cpu.execute_cycle(), Ok(()));
    assert_eq!(cpu.pc, 6);
    assert!(!cpu.get_flag(Flag::Z));
    assert!(cpu.get_flag(Flag::C));
    assert_eq!(cpu.a, 0x10);
}

#[test]
fn register_access_by_index() {
    let mut cpu = cpu_with(&[]);
    for index in 0..8u8 {
        if index != 6 {
            assert_eq!(cpu.set_register_by_index(index, 0x10 + index), Ok(()));
        }
    }
    assert_eq!((cpu.b, cpu.c, cpu.d, cpu.e), (0x10, 0x11, 0x12, 0x13));
    assert_eq!((cpu.h, cpu.l, cpu.a), (0x14, 0x15, 0x17));
    cpu.set_hl(0xC000);
    assert_eq!(cpu.set_register_by_index(6, 0x66), Ok(()));
    assert_eq!(cpu.memory.read_byte(0xC000), 0x66);
    assert_eq!(cpu.get_register_by_index(6), 0x66);
    assert_eq!(cpu.get_register_by_index(7), 0x17);
}

#[test]
fn set_and_get_flags() {
    let mut cpu = cpu_with(&[]);
    cpu.f = 0x00;
    cpu.set_flag(Flag::Z, true);
    assert_eq!(cpu.f, 0x40);
    cpu.set_flag(Flag::S, true);
    assert_eq!(cpu.f, 0xC0);
    cpu.set_flag(Flag::H, true);
    cpu.set_flag(Flag::P, true);
    cpu.set_flag(Flag::N, true);
    cpu.set_flag(Flag::C, true);
    assert_eq!(cpu.f, 0xD7);
    cpu.set_flag(Flag::Z, false);
    assert_eq!(cpu.f, 0x97);
    assert!(cpu.check_flag(Flag::S));
    assert!(!cpu.check_flag(Flag::Z));
}

#[test]
fn reset_keeps_memory_and_bus() {
    let mut cpu = cpu_with(&[0x3E, 0x12, 0x76]);
    cpu.register_device(Device::Ppi(Ppi::new()));
    cpu.max_cycles = Some(100);
    assert_eq!(cpu.execute_cycle(), Ok(()));
    assert_eq!(cpu.execute_cycle(), Ok(()));
    cpu.reset();
    assert_eq!((cpu.a, cpu.pc, cpu.sp, cpu.cycles), (0, 0, 0xF000, 0));
    assert!(!cpu.halted);
    assert_eq!(cpu.memory.read_byte(0), 0x3E);
    assert_eq!(cpu.bus.io_devices.len(), 1);
    assert_eq!(cpu.max_cycles, Some(100));
}
