//! The TMS9918 video display processor: 16 KiB of video RAM behind an
//! auto-incrementing address, eight control registers, and the two-phase
//! latch of the control port.

use vstd::prelude::*;
use super::IoDevice;

verus! {

/// Number of bytes of video RAM; the VRAM address counts modulo this.
pub const VRAM_SIZE: usize = 0x4000;

/// Number of palette indices in the frame buffer (256 columns, 192 rows).
pub const SCREEN_SIZE: usize = 49152;

/// The data port.
pub const VDP_DATA_PORT: u8 = 0x98;

/// The control and status port.
pub const VDP_CONTROL_PORT: u8 = 0x99;

/// One entry of the sprite attribute set.
#[derive(Debug, Clone, Copy)]
pub struct Sprite {
    pub x: u8,
    pub y: u8,
    pub pattern: u32,
    pub color: u8,
    pub collision: bool,
}

impl Default for Sprite {
    fn default() -> (sprite: Sprite)
        ensures
            sprite == (Sprite { x: 0, y: 0, pattern: 0, color: 0, collision: false }),
    {
        Sprite { x: 0, y: 0, pattern: 0, color: 0, collision: false }
    }
}

/// The VDP: video RAM, control registers, status byte, VRAM address, the
/// latch and command byte of the control port, and the frame buffer.
#[derive(Debug)]
pub struct TMS9918 {
    pub vram: [u8; VRAM_SIZE],
    pub registers: [u8; 8],
    pub status: u8,
    pub address: u16,
    pub latch: bool,
    pub command: u8,
    pub screen_buffer: [u8; SCREEN_SIZE],
    pub sprites: [Sprite; 8],
    pub frame: u8,
    pub line: u8,
    pub vblank: bool,
}

/// The state of the VDP as a mathematical value.
#[verifier::ext_equal]
pub struct VdpState {
    pub vram: Seq<u8>,
    pub registers: Seq<u8>,
    pub status: u8,
    pub address: u16,
    pub latch: bool,
    pub command: u8,
    pub screen_buffer: Seq<u8>,
    pub sprites: Seq<Sprite>,
    pub frame: u8,
    pub line: u8,
    pub vblank: bool,
}

/// The address that follows `address`, counting modulo the VRAM size.
pub open spec fn next_vram_address(address: u16) -> u16 {
    ((address + 1) % 0x4000) as u16
}

impl VdpState {
    /// The state at power-on: everything zero, latch clear.
    pub open spec fn power_on() -> VdpState {
        VdpState {
            vram: Seq::new(0x4000, |i: int| 0u8),
            registers: Seq::new(8, |i: int| 0u8),
            status: 0,
            address: 0,
            latch: false,
            command: 0,
            screen_buffer: Seq::new(49152, |i: int| 0u8),
            sprites: Seq::new(
                8,
                |i: int| (Sprite { x: 0, y: 0, pattern: 0, color: 0, collision: false }),
            ),
            frame: 0,
            line: 0,
            vblank: false,
        }
    }

    /// The sizes of the memories and the 14-bit range of the address.
    pub open spec fn wf(self) -> bool {
        &&& self.vram.len() == 0x4000
        &&& self.registers.len() == 8
        &&& self.screen_buffer.len() == 49152
        &&& self.sprites.len() == 8
        &&& self.address < 0x4000
    }

    /// The byte of VRAM that the address selects. An address beyond 14 bits
    /// selects by its low 14 bits.
    pub open spec fn addressed_byte(self) -> u8 {
        self.vram[self.address as int % 0x4000]
    }

    /// The byte that a read of the data port returns.
    pub open spec fn data_read_value(self) -> u8 {
        self.addressed_byte()
    }

    /// A read of the data port: the address moves on and the latch clears.
    pub open spec fn after_data_read(self) -> VdpState {
        VdpState { address: next_vram_address(self.address), latch: false, ..self }
    }

    /// A write to the data port: the byte is stored where the address points,
    /// the address moves on and the latch clears.
    pub open spec fn after_data_write(self, data: u8) -> VdpState {
        VdpState {
            vram: if self.address < 0x4000 {
                self.vram.update(self.address as int, data)
            } else {
                self.vram
            },
            address: next_vram_address(self.address),
            latch: false,
            ..self
        }
    }

    /// A read of the status port: the latch clears.
    pub open spec fn after_status_read(self) -> VdpState {
        VdpState { latch: false, ..self }
    }

    /// The first byte of a control sequence: it is kept as the command byte and
    /// becomes the low byte of the address at once.
    pub open spec fn after_first_control_byte(self, data: u8) -> VdpState {
        VdpState {
            command: data,
            address: (self.address & 0xFF00) | (data as u16),
            latch: true,
            ..self
        }
    }

    /// The second byte with bit 7 clear: the command byte goes into the
    /// register that the low three bits name, and its low six bits become the
    /// high bits of the address.
    pub open spec fn after_register_command(self, data: u8) -> VdpState {
        VdpState {
            registers: self.registers.update((data & 0x07) as int, self.command),
            address: (self.address & 0x00FF) | (((self.command & 0x3F) as u16) << 8),
            latch: false,
            ..self
        }
    }

    /// The address that a pointer command with second byte `data` sets up.
    pub open spec fn pointer_address(self, data: u8) -> u16 {
        self.address | (((data & 0x3F) as u16) << 8) | (self.command as u16)
    }

    /// The second byte with bit 7 set: the address is completed; in read mode
    /// (bit 6 clear) the addressed byte is fetched into the status byte and
    /// the address moves on.
    pub open spec fn after_pointer_command(self, data: u8) -> VdpState {
        let pointed = VdpState { address: self.pointer_address(data), latch: false, ..self };
        if data & 0x40 == 0 {
            VdpState {
                status: pointed.addressed_byte(),
                address: next_vram_address(pointed.address),
                ..pointed
            }
        } else {
            pointed
        }
    }

    /// A write to the control port, in either phase of the latch.
    pub open spec fn after_control_write(self, data: u8) -> VdpState {
        if !self.latch {
            self.after_first_control_byte(data)
        } else if data & 0x80 == 0 {
            self.after_register_command(data)
        } else {
            self.after_pointer_command(data)
        }
    }

    /// The byte that a read of `port` returns; `0xFF` on a port that is not
    /// the VDP's.
    pub open spec fn read_value(self, port: u8) -> u8 {
        if port == 0x98 {
            self.data_read_value()
        } else if port == 0x99 {
            self.status
        } else {
            0xFF
        }
    }

    /// The state after a read of `port`.
    pub open spec fn after_read(self, port: u8) -> VdpState {
        if port == 0x98 {
            self.after_data_read()
        } else if port == 0x99 {
            self.after_status_read()
        } else {
            self
        }
    }

    /// The state after `data` is written to `port`.
    pub open spec fn after_write(self, port: u8, data: u8) -> VdpState {
        if port == 0x98 {
            self.after_data_write(data)
        } else if port == 0x99 {
            self.after_control_write(data)
        } else {
            self
        }
    }

    /// The state after the bytes of `data` are written to the data port, first
    /// to last.
    pub open spec fn after_data_writes(self, data: Seq<u8>) -> VdpState
        decreases data.len(),
    {
        if data.len() == 0 {
            self
        } else {
            self.after_data_write(data[0]).after_data_writes(data.subrange(1, data.len() as int))
        }
    }

    /// The bytes that `count` reads of the data port return, first to last.
    pub open spec fn data_reads(self, count: nat) -> Seq<u8>
        decreases count,
    {
        if count == 0 {
            Seq::empty()
        } else {
            seq![self.data_read_value()] + self.after_data_read().data_reads((count - 1) as nat)
        }
    }
}

impl View for TMS9918 {
    type V = VdpState;

    open spec fn view(&self) -> VdpState {
        VdpState {
            vram: self.vram@,
            registers: self.registers@,
            status: self.status,
            address: self.address,
            latch: self.latch,
            command: self.command,
            screen_buffer: self.screen_buffer@,
            sprites: self.sprites@,
            frame: self.frame,
            line: self.line,
            vblank: self.vblank,
        }
    }
}

/// The address after `address`, modulo the VRAM size.
pub fn advance_vram_address(address: u16) -> (next: u16)
    ensures
        next == next_vram_address(address),
        next < 0x4000,
{
    let wide: u32 = address as u32 + 1;
    (wide % 0x4000) as u16
}

impl TMS9918 {
    /// A VDP at power-on.
    pub fn new() -> (vdp: TMS9918)
        ensures
            vdp@ == VdpState::power_on(),
    {
        TMS9918 {
            vram: [0; VRAM_SIZE],
            registers: [0; 8],
            status: 0,
            address: 0,
            latch: false,
            command: 0,
            screen_buffer: [0; SCREEN_SIZE],
            sprites: [Sprite { x: 0, y: 0, pattern: 0, color: 0, collision: false }; 8],
            frame: 0,
            line: 0,
            vblank: false,
        }
    }

    /// Puts the VDP back into its power-on state.
    pub fn reset(&mut self)
        ensures
            final(self)@ == VdpState::power_on(),
    {
        *self = TMS9918::new();
    }

    /// The byte of VRAM at `address`, taken modulo the VRAM size; the VDP's
    /// own address and latch are left alone.
    pub fn vram_read_np(&self, address: usize) -> (value: usize)
        ensures
            value == self@.vram[address as int % 0x4000],
    {
        self.vram[address % VRAM_SIZE] as usize
    }

    /// The vertical scroll offset, which this VDP does not have.
    pub fn get_vertical_scroll(&self) -> (scroll: usize)
        ensures
            scroll == 0,
    {
        0
    }

    /// A read of the data port.
    pub fn read_vram(&mut self) -> (data: u8)
        ensures
            data == old(self)@.data_read_value(),
            final(self)@ == old(self)@.after_data_read(),
            !final(self).latch,
    {
        let data = self.vram[(self.address % 0x4000) as usize];
        self.address = advance_vram_address(self.address);
        self.latch = false;
        data
    }

    /// A write to the data port.
    pub fn write_vram(&mut self, data: u8)
        ensures
            final(self)@ == old(self)@.after_data_write(data),
    {
        if self.address < 0x4000 {
            self.vram[self.address as usize] = data;
        }
        self.address = advance_vram_address(self.address);
        self.latch = false;
    }

    /// A read of the status port.
    pub fn read_register(&mut self) -> (data: u8)
        ensures
            data == old(self).status,
            final(self)@ == old(self)@.after_status_read(),
            !final(self).latch,
    {
        let data = self.status;
        self.latch = false;
        data
    }

    /// A write to the control port, in either phase of the latch.
    pub fn write_register(&mut self, data: u8)
        ensures
            final(self)@ == old(self)@.after_control_write(data),
    {
        if self.latch {
            if data & 0x80 == 0 {
                let reg = data & 0x07;
                proof {
                    lemma_control_bits(self.address, data, self.command);
                }
                self.registers[reg as usize] = self.command;
                self.address = (self.address & 0x00FF) | (((self.command & 0x3F) as u16) << 8);
            } else {
                self.address = self.address | (((data & 0x3F) as u16) << 8) | (self.command as u16);
                if (data & 0x40) == 0 {
                    self.status = self.vram[(self.address % 0x4000) as usize];
                    self.address = advance_vram_address(self.address);
                }
            }
            self.latch = false;
        } else {
            self.command = data;
            self.address = (self.address & 0xFF00) | (data as u16);
            self.latch = true;
        }
    }
}

impl IoDevice for TMS9918 {
    fn is_valid_port(&self, port: u8) -> (valid: bool)
        ensures
            valid == (port == 0x98 || port == 0x99),
    {
        port == VDP_DATA_PORT || port == VDP_CONTROL_PORT
    }

    fn read(&mut self, port: u8) -> (data: u8)
        ensures
            data == old(self)@.read_value(port),
            final(self)@ == old(self)@.after_read(port),
    {
        if port == VDP_DATA_PORT {
            self.read_vram()
        } else if port == VDP_CONTROL_PORT {
            self.read_register()
        } else {
            0xFF
        }
    }

    fn write(&mut self, port: u8, data: u8)
        ensures
            final(self)@ == old(self)@.after_write(port, data),
    {
        if port == VDP_DATA_PORT {
            self.write_vram(data)
        } else if port == VDP_CONTROL_PORT {
            self.write_register(data)
        }
    }
}

/// The bit-level facts behind the control port: the register number is below
/// eight, and no phase of a control sequence takes a 14-bit address out of
/// its range.
pub proof fn lemma_control_bits(address: u16, data: u8, command: u8)
    by (bit_vector)
    ensures
        data & 0x07 < 8,
        address < 0x4000 ==> (address & 0xFF00) | (data as u16) < 0x4000,
        address < 0x4000 ==> (address & 0x00FF) | (((command & 0x3F) as u16) << 8) < 0x4000,
        address < 0x4000 ==> address | (((data & 0x3F) as u16) << 8) | (command as u16) < 0x4000,
{
}

/// Every read and every write on a port keeps a well-formed VDP well-formed:
/// the memories keep their sizes and the address stays within 14 bits.
pub proof fn lemma_port_access_keeps_wf(state: VdpState, port: u8, data: u8)
    requires
        state.wf(),
    ensures
        state.after_read(port).wf(),
        state.after_write(port, data).wf(),
{
    lemma_control_bits(state.address, data, state.command);
}

/// A read of the data port and a read of the status port both leave the latch
/// clear, whatever it was.
pub proof fn lemma_reads_clear_latch(state: VdpState)
    ensures
        !state.after_data_read().latch,
        !state.after_status_read().latch,
        !state.after_read(0x98).latch,
        !state.after_read(0x99).latch,
{
}

/// The VRAM address that is `offset` steps after `start`.
pub open spec fn vram_address_after(start: int, offset: int) -> int {
    (start + offset) % 0x4000
}

/// Writing bytes through the data port stores them at consecutive addresses
/// modulo the VRAM size, and leaves every other byte of VRAM as it was.
pub proof fn lemma_data_writes(state: VdpState, data: Seq<u8>)
    requires
        state.wf(),
        data.len() <= 0x4000,
    ensures
        state.after_data_writes(data).wf(),
        state.after_data_writes(data).address == vram_address_after(
            state.address as int,
            data.len() as int,
        ),
        forall|k: int|
            0 <= k < data.len() ==> state.after_data_writes(data).vram[#[trigger] vram_address_after(
                state.address as int,
                k,
            )] == data[k],
        forall|index: int|
            0 <= index < 0x4000 && (forall|k: int|
                0 <= k < data.len() ==> #[trigger] vram_address_after(state.address as int, k)
                    != index) ==> #[trigger] state.after_data_writes(data).vram[index]
                == state.vram[index],
    decreases data.len(),
{
    if data.len() > 0 {
        let first = state.after_data_write(data[0]);
        let rest = data.subrange(1, data.len() as int);
        lemma_data_writes(first, rest);
        let last = first.after_data_writes(rest);
        let start = state.address as int;
        assert(vram_address_after(start, 0) == start);
        assert forall|k: int| 0 <= k < rest.len() implies #[trigger] vram_address_after(
            first.address as int,
            k,
        ) == vram_address_after(start, k + 1) && vram_address_after(start, k + 1) != start by {}
        assert forall|k: int| 0 <= k < data.len() implies last.vram[#[trigger] vram_address_after(
            start,
            k,
        )] == data[k] by {
            if k == 0 {
                assert(last.vram[start] == first.vram[start]);
            } else {
                assert(rest[k - 1] == data[k]);
                assert(vram_address_after(first.address as int, k - 1) == vram_address_after(
                    start,
                    k,
                ));
            }
        }
        assert forall|index: int|
            0 <= index < 0x4000 && (forall|k: int|
                0 <= k < data.len() ==> #[trigger] vram_address_after(start, k)
                    != index) implies #[trigger] last.vram[index] == state.vram[index] by {
            assert(vram_address_after(start, 0) != index);
            assert forall|k: int| 0 <= k < rest.len() implies #[trigger] vram_address_after(
                first.address as int,
                k,
            ) != index by {
                assert(vram_address_after(start, k + 1) != index);
            }
        }
    }
}

/// Reading through the data port returns the bytes at consecutive addresses
/// modulo the VRAM size.
pub proof fn lemma_data_reads(state: VdpState, count: nat)
    requires
        state.wf(),
    ensures
        state.data_reads(count).len() == count,
        forall|k: int|
            0 <= k < count ==> #[trigger] state.data_reads(count)[k]
                == state.vram[vram_address_after(state.address as int, k)],
    decreases count,
{
    if count > 0 {
        let next = state.after_data_read();
        lemma_data_reads(next, (count - 1) as nat);
        let tail = next.data_reads((count - 1) as nat);
        assert forall|k: int| 0 <= k < count implies #[trigger] state.data_reads(count)[k]
            == state.vram[vram_address_after(state.address as int, k)] by {
            if k > 0 {
                assert(state.data_reads(count)[k] == tail[k - 1]);
                assert(vram_address_after(next.address as int, k - 1) == vram_address_after(
                    state.address as int,
                    k,
                ));
            }
        }
    }
}

/// The round trip through the data port: after a run of at most one VRAM's
/// worth of writes, putting the address back where the run began and reading
/// as many bytes returns the bytes written, in order.
pub proof fn lemma_data_port_round_trip(state: VdpState, data: Seq<u8>)
    requires
        state.wf(),
        data.len() <= 0x4000,
    ensures
        (VdpState { address: state.address, ..state.after_data_writes(data) }).data_reads(
            data.len(),
        ) == data,
{
    let written = state.after_data_writes(data);
    let rewound = VdpState { address: state.address, ..written };
    lemma_data_writes(state, data);
    lemma_data_reads(rewound, data.len());
    assert(rewound.data_reads(data.len()) =~= data);
}

} // verus!
