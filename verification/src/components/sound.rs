//! The AY-3-8910 programmable sound generator, as far as its two ports go:
//! a register file and the latch that selects one register of it.

use vstd::prelude::*;
use super::IoDevice;

verus! {

/// The register-select port.
pub const PSG_SELECT_PORT: u8 = 0xA0;

/// The register-data port.
pub const PSG_DATA_PORT: u8 = 0xA1;

/// The register file of the PSG and the latch that selects a register.
#[derive(Debug)]
pub struct AY38910 {
    pub registers: [u8; 16],
    pub selected_register: u8,
}

/// The state of the PSG as a mathematical value.
#[verifier::ext_equal]
pub struct PsgState {
    pub registers: Seq<u8>,
    pub selected_register: u8,
}

impl PsgState {
    /// The PSG at power-on: every register zero, register 0 selected.
    pub open spec fn power_on() -> PsgState {
        PsgState { registers: Seq::new(16, |i: int| 0u8), selected_register: 0 }
    }

    /// The register file has sixteen registers and the latch names one of them.
    pub open spec fn wf(self) -> bool {
        self.registers.len() == 16 && self.selected_register < 16
    }

    /// The byte that a read of `port` returns: the latch on the select port,
    /// the selected register on the data port, 0 elsewhere. A latch beyond
    /// four bits selects by its low four bits.
    pub open spec fn read_value(self, port: u8) -> u8 {
        if port == 0xA0 {
            self.selected_register
        } else if port == 0xA1 {
            self.registers[self.selected_register as int % 16]
        } else {
            0
        }
    }

    /// The PSG after `data` is written to `port`: the select port keeps the
    /// low four bits as the latch, the data port stores into the selected
    /// register.
    pub open spec fn after_write(self, port: u8, data: u8) -> PsgState {
        if port == 0xA0 {
            PsgState { selected_register: data % 16, ..self }
        } else if port == 0xA1 {
            PsgState {
                registers: self.registers.update(self.selected_register as int % 16, data),
                ..self
            }
        } else {
            self
        }
    }
}

impl View for AY38910 {
    type V = PsgState;

    open spec fn view(&self) -> PsgState {
        PsgState { registers: self.registers@, selected_register: self.selected_register }
    }
}

impl AY38910 {
    /// A PSG at power-on.
    pub fn new() -> (psg: AY38910)
        ensures
            psg@ == PsgState::power_on(),
    {
        AY38910 { registers: [0; 16], selected_register: 0 }
    }

    /// Puts the PSG back into its power-on state.
    pub fn reset(&mut self)
        ensures
            final(self)@ == PsgState::power_on(),
    {
        *self = AY38910::new();
    }
}

impl IoDevice for AY38910 {
    fn is_valid_port(&self, port: u8) -> (valid: bool)
        ensures
            valid == (port == 0xA0 || port == 0xA1),
    {
        port == PSG_SELECT_PORT || port == PSG_DATA_PORT
    }

    fn read(&mut self, port: u8) -> (data: u8)
        ensures
            data == old(self)@.read_value(port),
            final(self)@ == old(self)@,
    {
        if port == PSG_SELECT_PORT {
            self.selected_register
        } else if port == PSG_DATA_PORT {
            self.registers[(self.selected_register % 16) as usize]
        } else {
            0
        }
    }

    fn write(&mut self, port: u8, data: u8)
        ensures
            final(self)@ == old(self)@.after_write(port, data),
    {
        if port == PSG_SELECT_PORT {
            self.selected_register = data % 16;
        } else if port == PSG_DATA_PORT {
            self.registers[(self.selected_register % 16) as usize] = data;
        }
    }
}

/// A byte written to the data port is the byte that the data port reads back,
/// until the latch or that register is written again.
pub proof fn lemma_psg_write_then_read(state: PsgState, data: u8)
    requires
        state.wf(),
    ensures
        state.after_write(0xA1, data).read_value(0xA1) == data,
        state.after_write(0xA1, data).wf(),
{
}

} // verus!
