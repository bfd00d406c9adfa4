//! The 64 KiB address space: ROM in the lower half, a cartridge slot with the
//! memory-mapped VDP ports above it, RAM in the top quarter.

use vstd::prelude::*;
use crate::bits::{make_word, word_of, low_byte, high_byte, low_byte_of, high_byte_of};
use crate::error::MachineError;

verus! {

/// Number of bytes in the address space.
pub const MEMORY_SIZE: usize = 0x10000;

/// First address above the ROM half (BIOS and cartridge slot 1).
pub const ROM_END: u16 = 0x8000;

/// First address of main RAM.
pub const RAM_START: u16 = 0xC000;

/// The address that stands for the VDP's data port.
pub const VDP_DATA_ADDRESS: u16 = 0x9800;

/// The address that stands for the VDP's control port.
pub const VDP_CONTROL_ADDRESS: u16 = 0x9801;

/// What a write into the ROM half does.
#[derive(Clone, Copy, Debug, PartialEq, Eq, Structural)]
pub enum WriteMode {
    /// The write fails.
    Strict,
    /// The write is ignored.
    Permissive,
}

/// A write to an I/O port that a memory write stands for. The memory does not
/// perform it: whoever holds the bus does.
#[derive(Clone, Copy, Debug, PartialEq, Eq, Structural)]
pub struct PortWrite {
    pub port: u8,
    pub value: u8,
}

/// The 64 KiB of the address space and the mode of writes into ROM.
#[derive(Debug)]
pub struct Memory {
    pub data: [u8; MEMORY_SIZE],
    pub mode: WriteMode,
}

/// The memory as a mathematical value.
#[verifier::ext_equal]
pub struct MemoryState {
    pub data: Seq<u8>,
    pub mode: WriteMode,
}

/// What a byte write amounts to.
#[derive(Clone, Copy, Debug, PartialEq, Eq, Structural)]
pub enum WriteEffect {
    /// The address is in the ROM half.
    Rom,
    /// The address stands for a port of the VDP.
    Port(PortWrite),
    /// The address is in the cartridge slot and stands for nothing.
    Ignored,
    /// The address is in RAM.
    Store,
}

/// The effect of writing `value` to `address`, by the region `address` is in.
pub open spec fn write_effect(address: u16, value: u8) -> WriteEffect {
    if address < 0x8000 {
        WriteEffect::Rom
    } else if address == 0x9800 {
        WriteEffect::Port(PortWrite { port: 0x98, value })
    } else if address == 0x9801 {
        WriteEffect::Port(PortWrite { port: 0x99, value })
    } else if address < 0xC000 {
        WriteEffect::Ignored
    } else {
        WriteEffect::Store
    }
}

impl MemoryState {
    /// The memory at power-on: `0xFF` everywhere but in `0xFD9A..=0xFFC9`,
    /// which holds `0xC9`, so that a call into a hook there returns at once.
    pub open spec fn power_on() -> MemoryState {
        MemoryState {
            data: Seq::new(
                0x10000,
                |i: int|
                    if 0xFD9A <= i <= 0xFFC9 {
                        0xC9u8
                    } else {
                        0xFFu8
                    },
            ),
            mode: WriteMode::Strict,
        }
    }

    /// Whether the memory spans the whole address space.
    pub open spec fn wf(self) -> bool {
        self.data.len() == 0x10000
    }

    /// The byte at `address`.
    pub open spec fn read_byte(self, address: u16) -> u8 {
        self.data[address as int]
    }

    /// The little-endian word at `address`: low byte there, high byte at the
    /// address after it, which is 0 after `0xFFFF`.
    pub open spec fn read_word(self, address: u16) -> u16 {
        word_of(self.read_byte(address), self.read_byte(address.wrapping_add(1)))
    }

    /// Whether a write to `address` fails: it does in the ROM half of a
    /// strict memory.
    pub open spec fn write_fails(self, address: u16) -> bool {
        self.mode == WriteMode::Strict && address < 0x8000
    }

    /// The memory after `value` is written to `address` (where the write does
    /// not fail): changed in RAM only.
    pub open spec fn after_write(self, address: u16, value: u8) -> MemoryState {
        if address >= 0xC000 {
            MemoryState { data: self.data.update(address as int, value), ..self }
        } else {
            self
        }
    }

    /// The port write that a write of `value` to `address` stands for.
    pub open spec fn port_write(address: u16, value: u8) -> Option<PortWrite> {
        match write_effect(address, value) {
            WriteEffect::Port(write) => Some(write),
            _ => None,
        }
    }

    /// Whether a word write to `address` fails: it does where either of its
    /// byte writes would.
    pub open spec fn word_write_fails(self, address: u16) -> bool {
        self.write_fails(address) || self.write_fails(address.wrapping_add(1))
    }

    /// The address at which a failing word write to `address` fails first.
    pub open spec fn word_write_fault(self, address: u16) -> u16 {
        if self.write_fails(address) {
            address
        } else {
            address.wrapping_add(1)
        }
    }

    /// The memory after a word write to `address`: low byte first.
    pub open spec fn after_word_write(self, address: u16, value: u16) -> MemoryState {
        self.after_write(address, low_byte(value)).after_write(
            address.wrapping_add(1),
            high_byte(value),
        )
    }

    /// The memory after a BIOS image is loaded: the image from address 0 on,
    /// the rest as before.
    pub open spec fn after_load(self, start: int, image: Seq<u8>) -> MemoryState {
        MemoryState {
            data: Seq::new(
                self.data.len(),
                |i: int|
                    if start <= i < start + image.len() {
                        image[i - start]
                    } else {
                        self.data[i]
                    },
            ),
            ..self
        }
    }
}

impl View for Memory {
    type V = MemoryState;

    open spec fn view(&self) -> MemoryState {
        MemoryState { data: self.data@, mode: self.mode }
    }
}

impl Memory {
    /// A strict memory in its power-on state.
    pub fn new() -> (memory: Memory)
        ensures
            memory@ == MemoryState::power_on(),
    {
        let mut data = [0xFFu8; MEMORY_SIZE];
        let mut i: usize = 0xFD9A;
        while i <= 0xFFC9
            invariant
                0xFD9A <= i <= 0xFFCA,
                forall|k: int| 0 <= k < 0xFD9A ==> data@[k] == 0xFF,
                forall|k: int| 0xFD9A <= k < i ==> data@[k] == 0xC9,
                forall|k: int| i <= k < 0x10000 ==> data@[k] == 0xFF,
            decreases 0xFFCA - i,
        {
            data[i] = 0xC9;
            i = i + 1;
        }
        Memory { data, mode: WriteMode::Strict }
    }

    pub fn read_byte(&self, address: u16) -> (value: u8)
        ensures
            value == self@.read_byte(address),
    {
        self.data[address as usize]
    }

    /// The byte at `addr` as a two's complement number.
    pub fn read_signed_byte(&self, addr: u16) -> (value: i8)
        ensures
            value == crate::bits::signed_value(self@.read_byte(addr)),
    {
        let unsigned_byte = self.read_byte(addr);
        if unsigned_byte < 128 {
            unsigned_byte as i8
        } else {
            (unsigned_byte as i16 - 256) as i8
        }
    }

    /// Writes one byte, by the region that `address` is in. In the ROM half a
    /// strict memory fails and a permissive one ignores the write. In the
    /// cartridge slot nothing is stored; a write to one of the two VDP
    /// addresses comes back as the port write it stands for. In RAM the byte
    /// is stored.
    pub fn write_byte(&mut self, address: u16, value: u8) -> (result: Result<
        Option<PortWrite>,
        MachineError,
    >)
        ensures
            old(self)@.write_fails(address) ==> result == Err::<Option<PortWrite>, MachineError>(
                MachineError::WriteToRom { addr: address },
            ) && final(self)@ == old(self)@,
            !old(self)@.write_fails(address) ==> result == Ok::<Option<PortWrite>, MachineError>(
                MemoryState::port_write(address, value),
            ) && final(self)@ == old(self)@.after_write(address, value),
    {
        if address < ROM_END {
            match self.mode {
                WriteMode::Strict => Err(MachineError::WriteToRom { addr: address }),
                WriteMode::Permissive => Ok(None),
            }
        } else if address == VDP_DATA_ADDRESS {
            Ok(Some(PortWrite { port: 0x98, value }))
        } else if address == VDP_CONTROL_ADDRESS {
            Ok(Some(PortWrite { port: 0x99, value }))
        } else if address < RAM_START {
            Ok(None)
        } else {
            self.data[address as usize] = value;
            Ok(None)
        }
    }

    /// Copies a BIOS image to address 0 and up, whatever the write mode. An
    /// image longer than the address space is refused and nothing is copied.
    pub fn load_bios(&mut self, buffer: &[u8]) -> (result: Result<(), MachineError>)
        ensures
            buffer@.len() > 0x10000 ==> result == Err::<(), MachineError>(
                MachineError::BiosLoadFailure { len: buffer@.len() as usize },
            ) && final(self)@ == old(self)@,
            buffer@.len() <= 0x10000 ==> result.is_ok() && final(self)@ == old(self)@.after_load(
                0,
                buffer@,
            ),
    {
        if buffer.len() > MEMORY_SIZE {
            return Err(MachineError::BiosLoadFailure { len: buffer.len() });
        }
        self.load_rom(0, buffer);
        Ok(())
    }

    /// Writes a word, low byte first, as two byte writes. If either byte
    /// write would fail, the word write fails with the first of them and
    /// nothing is written. The port writes that the two bytes stand for come
    /// back in order.
    pub fn write_word(&mut self, address: u16, value: u16) -> (result: Result<
        (Option<PortWrite>, Option<PortWrite>),
        MachineError,
    >)
        ensures
            old(self)@.word_write_fails(address) ==> result == Err::<
                (Option<PortWrite>, Option<PortWrite>),
                MachineError,
            >(MachineError::WriteToRom { addr: old(self)@.word_write_fault(address) })
                && final(self)@ == old(self)@,
            !old(self)@.word_write_fails(address) ==> result == Ok::<
                (Option<PortWrite>, Option<PortWrite>),
                MachineError,
            >(
                (
                    MemoryState::port_write(address, low_byte(value)),
                    MemoryState::port_write(address.wrapping_add(1), high_byte(value)),
                ),
            ) && final(self)@ == old(self)@.after_word_write(address, value),
    {
        let next = address.wrapping_add(1);
        match self.mode {
            WriteMode::Strict => {
                if address < ROM_END {
                    return Err(MachineError::WriteToRom { addr: address });
                }
                if next < ROM_END {
                    return Err(MachineError::WriteToRom { addr: next });
                }
            },
            WriteMode::Permissive => {},
        }
        let low = self.write_byte(address, low_byte_of(value));
        let high = self.write_byte(next, high_byte_of(value));
        match (low, high) {
            (Ok(first), Ok(second)) => Ok((first, second)),
            (Err(e), _) => Err(e),
            (_, Err(e)) => Err(e),
        }
    }

    pub fn read_word(&self, address: u16) -> (value: u16)
        ensures
            value == self@.read_word(address),
    {
        let low_byte = self.read_byte(address);
        let high_byte = self.read_byte(address.wrapping_add(1));
        make_word(low_byte, high_byte)
    }

    /// Copies `data` to `start_address` and up, whatever the write mode.
    pub fn load_rom(&mut self, start_address: u16, data: &[u8])
        requires
            start_address + data@.len() <= 0x10000,
        ensures
            final(self)@ == old(self)@.after_load(start_address as int, data@),
    {
        let start = start_address as usize;
        let mut i: usize = 0;
        while i < data.len()
            invariant
                i <= data@.len(),
                start + data@.len() <= 0x10000,
                self.mode == old(self).mode,
                forall|k: int|
                    0 <= k < 0x10000 ==> #[trigger] self.data@[k] == (if start <= k < start + i {
                        data@[k - start]
                    } else {
                        old(self).data@[k]
                    }),
            decreases data@.len() - i,
        {
            self.data[start + i] = data[i];
            i = i + 1;
        }
    }
}

/// A byte written to RAM is the byte read back from there, and no other byte
/// of the memory changes.
pub proof fn lemma_ram_write_then_read(memory: MemoryState, address: u16, value: u8)
    requires
        memory.wf(),
        0xC000 <= address <= 0xFFFF,
    ensures
        !memory.write_fails(address),
        memory.after_write(address, value).read_byte(address) == value,
        forall|other: u16|
            other != address ==> memory.after_write(address, value).read_byte(other)
                == memory.read_byte(other),
{
}

/// A word is read little-endian: the byte at the address, or'ed with the byte
/// at the next address shifted up by eight bits; which is the first plus 256
/// times the second.
pub proof fn lemma_read_word(memory: MemoryState, address: u16)
    ensures
        memory.read_word(address) == (memory.read_byte(address) as u16) | ((memory.read_byte(
            address.wrapping_add(1),
        ) as u16) << 8),
        memory.read_word(address) == memory.read_byte(address) + 256 * memory.read_byte(
            address.wrapping_add(1),
        ),
{
    crate::bits::lemma_word_value(
        memory.read_byte(address),
        memory.read_byte(address.wrapping_add(1)),
    );
}

/// A word written where both of its bytes land in RAM is the word read back.
pub proof fn lemma_ram_word_round_trip(memory: MemoryState, address: u16, value: u16)
    requires
        memory.wf(),
        address >= 0xC000,
        address.wrapping_add(1) >= 0xC000,
    ensures
        !memory.word_write_fails(address),
        memory.after_word_write(address, value).read_word(address) == value,
{
    crate::bits::lemma_word_round_trip(value, 0, 0);
}

} // verus!
