use msx_emulator::bits::{displace, high_byte_of, low_byte_of, make_word};
use msx_emulator::components::memory::{Memory, PortWrite, WriteMode};
use msx_emulator::error::MachineError;

#[test]
fn memory_starts_filled() {
    let memory = Memory::new();
    assert_eq!(memory.read_byte(0x0000), 0xFF);
    assert_eq!(memory.read_byte(0xFD99), 0xFF);
    assert_eq!(memory.read_byte(0xFD9A), 0xC9);
    assert_eq!(memory.read_byte(0xFFC9), 0xC9);
    assert_eq!(memory.read_byte(0xFFCA), 0xFF);
    assert_eq!(memory.read_byte(0xFFFF), 0xFF);
    assert_eq!(memory.mode, WriteMode::Strict);
}

#[test]
fn ram_write_then_read() {
    let mut memory = Memory::new();
    for address in [0xC000u16, 0xDFFF, 0xE000, 0xFFFF] {
        assert_eq!(memory.write_byte(address, 0x5A), Ok(None));
        assert_eq!(memory.read_byte(address), 0x5A);
    }
    assert_eq!(memory.read_byte(0xC001), 0xFF);
}

#[test]
fn rom_writes_fail_when_strict() {
    let mut memory = Memory::new();
    assert_eq!(memory.write_byte(0x0000, 1), Err(MachineError::WriteToRom { addr: 0x0000 }));
    assert_eq!(memory.write_byte(0x3FFF, 1), Err(MachineError::WriteToRom { addr: 0x3FFF }));
    assert_eq!(memory.write_byte(0x4000, 1), Err(MachineError::WriteToRom { addr: 0x4000 }));
    assert_eq!(memory.write_byte(0x7FFF, 1), Err(MachineError::WriteToRom { addr: 0x7FFF }));
    assert_eq!(memory.read_byte(0x7FFF), 0xFF);
}

#[test]
fn rom_writes_are_ignored_when_permissive() {
    let mut memory = Memory::new();
    memory.mode = WriteMode::Permissive;
    assert_eq!(memory.write_byte(0x1234, 0x00), Ok(None));
    assert_eq!(memory.read_byte(0x1234), 0xFF);
    assert_eq!(memory.write_word(0x7FFF, 0x0000), Ok((None, None)));
    assert_eq!(memory.read_byte(0x7FFF), 0xFF);
    assert_eq!(memory.read_byte(0x8000), 0xFF);
}

#[test]
fn cartridge_slot_forwards_the_vdp_addresses() {
    let mut memory = Memory::new();
    assert_eq!(memory.write_byte(0x9800, 0x12), Ok(Some(PortWrite { port: 0x98, value: 0x12 })));
    assert_eq!(memory.write_byte(0x9801, 0x34), Ok(Some(PortWrite { port: 0x99, value: 0x34 })));
    assert_eq!(memory.write_byte(0x9802, 0x56), Ok(None));
    assert_eq!(memory.write_byte(0x8000, 0x56), Ok(None));
    assert_eq!(memory.write_byte(0xBFFF, 0x56), Ok(None));
    assert_eq!(memory.read_byte(0x9800), 0xFF);
    assert_eq!(memory.read_byte(0x8000), 0xFF);
    assert_eq!(
        memory.write_word(0x9800, 0x3412),
        Ok((
            Some(PortWrite { port: 0x98, value: 0x12 }),
            Some(PortWrite { port: 0x99, value: 0x34 })
        ))
    );
}

#[test]
fn words_are_little_endian() {
    let mut memory = Memory::new();
    assert_eq!(memory.write_word(0xC000, 0x1234), Ok((None, None)));
    assert_eq!(memory.read_byte(0xC000), 0x34);
    assert_eq!(memory.read_byte(0xC001), 0x12);
    assert_eq!(memory.read_word(0xC000), 0x1234);
    assert_eq!(
        memory.read_word(0xC000),
        memory.read_byte(0xC000) as u16 | ((memory.read_byte(0xC001) as u16) << 8)
    );
}

#[test]
fn word_at_the_top_wraps_to_address_zero() {
    let mut memory = Memory::new();
    memory.load_rom(0x0000, &[0xAB]);
    assert_eq!(memory.write_byte(0xFFFF, 0xCD), Ok(None));
    assert_eq!(memory.read_word(0xFFFF), 0xABCD);
    assert_eq!(memory.write_word(0xFFFF, 0x1122), Err(MachineError::WriteToRom { addr: 0x0000 }));
    assert_eq!(memory.read_byte(0xFFFF), 0xCD);
    assert_eq!(memory.write_word(0x7FFF, 0x1122), Err(MachineError::WriteToRom { addr: 0x7FFF }));
}

#[test]
fn signed_bytes() {
    let mut memory = Memory::new();
    memory.load_rom(0x0000, &[0x00, 0x7F, 0x80, 0xFF]);
    assert_eq!(memory.read_signed_byte(0), 0);
    assert_eq!(memory.read_signed_byte(1), 127);
    assert_eq!(memory.read_signed_byte(2), -128);
    assert_eq!(memory.read_signed_byte(3), -1);
}

#[test]
fn bios_loads_at_zero() {
    let mut memory = Memory::new();
    assert_eq!(memory.load_bios(&[0xF3, 0xC3, 0x00, 0x10]), Ok(()));
    assert_eq!(memory.read_byte(0), 0xF3);
    assert_eq!(memory.read_byte(3), 0x10);
    assert_eq!(memory.read_byte(4), 0xFF);
    let whole = vec![0x11u8; 0x10000];
    assert_eq!(memory.load_bios(&whole), Ok(()));
    assert_eq!(memory.read_byte(0xFFFF), 0x11);
}

#[test]
fn bios_that_does_not_fit_is_refused() {
    let mut memory = Memory::new();
    let image = vec![0u8; 0x10001];
    assert_eq!(memory.load_bios(&image), Err(MachineError::BiosLoadFailure { len: 0x10001 }));
    assert_eq!(memory.read_byte(0), 0xFF);
    assert!(MachineError::BiosLoadFailure { len: 0x10001 }.is_fatal());
    assert_eq!(MachineError::BiosLoadFailure { len: 1 }.kind(), "BiosLoadFailure");
    assert_eq!(MachineError::UnknownOpcode { addr: 0, byte: 0 }.kind(), "UnknownOpcode");
    assert!(MachineError::UnknownOpcode { addr: 0, byte: 0 }.is_fatal());
}

#[test]
fn rom_loads_anywhere() {
    let mut memory = Memory::new();
    memory.load_rom(0x4000, &[1, 2, 3]);
    assert_eq!(memory.read_byte(0x3FFF), 0xFF);
    assert_eq!(memory.read_byte(0x4000), 1);
    assert_eq!(memory.read_byte(0x4002), 3);
    assert_eq!(memory.read_byte(0x4003), 0xFF);
    memory.load_rom(0xFFFF, &[9]);
    assert_eq!(memory.read_byte(0xFFFF), 9);
}

#[test]
fn words_and_bytes() {
    assert_eq!(make_word(0x34, 0x12), 0x1234);
    assert_eq!(low_byte_of(0x1234), 0x34);
    assert_eq!(high_byte_of(0x1234), 0x12);
    assert_eq!(displace(0x1000, 0x7F), 0x107F);
    assert_eq!(displace(0x1000, 0x80), 0x0F80);
    assert_eq!(displace(0x0000, 0xFF), 0xFFFF);
    assert_eq!(displace(0xFFFF, 0x01), 0x0000);
}
