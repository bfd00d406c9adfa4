//! The 8255 peripheral interface: slot select, keyboard row and miscellaneous
//! outputs, with the bit set/reset protocol of its control port.

use vstd::prelude::*;
use super::IoDevice;

verus! {

/// Register A: primary slot select.
pub const PPI_PORT_A: u8 = 0xA8;

/// Register B: keyboard row.
pub const PPI_PORT_B: u8 = 0xA9;

/// Register C: miscellaneous outputs.
pub const PPI_PORT_C: u8 = 0xAA;

/// The control register.
pub const PPI_CONTROL_PORT: u8 = 0xAB;

/// Register C after reset: motor and caps LED off.
pub const PPI_RESET_C: u8 = 0x50;

/// The registers of the PPI.
#[derive(Clone, Copy, Debug, PartialEq, Eq, Structural)]
pub struct Ppi {
    pub register_a: u8,
    pub register_b: u8,
    pub register_c: u8,
    pub control: u8,
    pub keyboard_row_selected: u8,
}

/// The number of the bit of register C that a control byte names: bits 1 to 3.
pub open spec fn control_bit_number(value: u8) -> u8 {
    ((value / 2) % 8) as u8
}

/// Register C after the control byte `value` has set or cleared its bit: set
/// where the low bit of `value` is 1, cleared where it is 0.
pub open spec fn register_c_after_control(register_c: u8, value: u8) -> u8 {
    if value % 2 == 0 {
        register_c & !(1u8 << control_bit_number(value))
    } else {
        register_c | (1u8 << control_bit_number(value))
    }
}

impl Ppi {
    /// The PPI at power-on.
    pub open spec fn power_on() -> Ppi {
        Ppi {
            register_a: 0,
            register_b: 0,
            register_c: 0x50,
            control: 0,
            keyboard_row_selected: 0,
        }
    }

    /// Whether the PPI answers for `port`.
    pub open spec fn claims(port: u8) -> bool {
        0xA8 <= port <= 0xAB
    }

    /// The byte that a read of `port` returns. The control register cannot be
    /// read back: its port, like any port that is not the PPI's, gives `0xFF`.
    pub open spec fn read_value(self, port: u8) -> u8 {
        if port == 0xA8 {
            self.register_a
        } else if port == 0xA9 {
            self.register_b
        } else if port == 0xAA {
            self.register_c
        } else {
            0xFF
        }
    }

    /// The PPI after `value` is written to `port`. Register B is an input
    /// line: a write to it is accepted and changes nothing.
    pub open spec fn after_write(self, port: u8, value: u8) -> Ppi {
        if port == 0xA8 {
            Ppi { register_a: value, ..self }
        } else if port == 0xAA {
            Ppi { register_c: value, ..self }
        } else if port == 0xAB {
            Ppi {
                control: value & 0x7F,
                register_c: register_c_after_control(self.register_c, value),
                ..self
            }
        } else {
            self
        }
    }

    /// The PPI after reset: register C and the keyboard row are reinitialised,
    /// the other registers stay.
    pub open spec fn after_reset(self) -> Ppi {
        Ppi { register_c: 0x50, keyboard_row_selected: 0, ..self }
    }

    /// A PPI at power-on.
    pub fn new() -> (ppi: Ppi)
        ensures
            ppi == Ppi::power_on(),
    {
        Ppi {
            register_a: 0,
            register_b: 0,
            register_c: PPI_RESET_C,
            control: 0,
            keyboard_row_selected: 0,
        }
    }

    /// Resets register C and the keyboard row.
    pub fn reset(&mut self)
        ensures
            *final(self) == old(self).after_reset(),
    {
        self.register_c = PPI_RESET_C;
        self.keyboard_row_selected = 0;
        self.update_pulse_signal();
        self.update_caps_led();
    }

    /// Whether the control register marks port A as an input: bit 7 clear.
    pub fn is_port_a_input(&self) -> (input: bool)
        ensures
            input == (self.control & 0x80 == 0),
    {
        self.control & 0b1000_0000 == 0
    }

    /// Whether the control register marks port B as an input: bit 1 clear.
    pub fn is_port_b_input(&self) -> (input: bool)
        ensures
            input == (self.control & 0x02 == 0),
    {
        self.control & 0b10 == 0
    }

    /// The cassette pulse signal follows register C; no PSG line is wired to
    /// it, so nothing changes.
    pub fn update_pulse_signal(&self) {
    }

    /// The caps LED follows register C; no LED is wired to it, so nothing
    /// changes.
    pub fn update_caps_led(&self) {
    }

    /// Reads `port`; nothing changes.
    pub fn read(&mut self, port: u8) -> (value: u8)
        ensures
            value == old(self).read_value(port),
            *final(self) == *old(self),
    {
        if port == PPI_PORT_A {
            self.register_a
        } else if port == PPI_PORT_B {
            self.register_b
        } else if port == PPI_PORT_C {
            self.register_c
        } else {
            0xFF
        }
    }

    /// Writes `value` to `port`.
    pub fn write(&mut self, port: u8, value: u8)
        ensures
            *final(self) == old(self).after_write(port, value),
    {
        if port == PPI_PORT_A {
            self.register_a = value;
        } else if port == PPI_PORT_C {
            self.register_c = value;
        } else if port == PPI_CONTROL_PORT {
            self.control = value & 0x7F;
            let bit_number: u8 = (value / 2) % 8;
            let bit_status: u8 = value % 2;
            if bit_status == 0 {
                self.register_c = self.register_c & !(1u8 << bit_number);
            } else {
                self.register_c = self.register_c | (1u8 << bit_number);
            }
        }
    }
}

impl IoDevice for Ppi {
    fn is_valid_port(&self, port: u8) -> (valid: bool)
        ensures
            valid == Ppi::claims(port),
    {
        PPI_PORT_A <= port && port <= PPI_CONTROL_PORT
    }

    fn read(&mut self, port: u8) -> (value: u8)
        ensures
            value == old(self).read_value(port),
            *final(self) == *old(self),
    {
        Ppi::read(self, port)
    }

    fn write(&mut self, port: u8, value: u8)
        ensures
            *final(self) == old(self).after_write(port, value),
    {
        Ppi::write(self, port, value)
    }
}

/// What the control port does to each bit of register C: the named bit takes
/// the value of the control byte's low bit, and every other bit stays.
pub proof fn lemma_control_sets_one_bit(register_c: u8, value: u8, bit: u8)
    requires
        bit < 8,
    ensures
        (register_c_after_control(register_c, value) & (1u8 << bit) != 0) == (if bit
            == control_bit_number(value) {
            value % 2 == 1
        } else {
            register_c & (1u8 << bit) != 0
        }),
{
    let n = control_bit_number(value);
    assert(n < 8);
    assert((register_c & !(1u8 << n)) & (1u8 << bit) != 0 <==> (bit != n && register_c & (1u8
        << bit) != 0)) by (bit_vector)
        requires
            n < 8,
            bit < 8,
    ;
    assert((register_c | (1u8 << n)) & (1u8 << bit) != 0 <==> (bit == n || register_c & (1u8
        << bit) != 0)) by (bit_vector)
        requires
            n < 8,
            bit < 8,
    ;
}

} // verus!
