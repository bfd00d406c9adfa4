//! The hardware components of the machine.

use vstd::prelude::*;

pub mod alu;
pub mod bus;
pub mod cpu;
pub mod cpu_laws;
pub mod cpu_state;
pub mod devices;
pub mod execute;
pub mod flags;
pub mod instruction;
pub mod memory;
pub mod opcode;
pub mod ppi;
pub mod sound;
pub mod vdp;

verus! {

/// A peripheral on the I/O bus. A device answers for the ports it claims;
/// each implementation states what its reads return and its writes change.
pub trait IoDevice {
    fn is_valid_port(&self, port: u8) -> bool;

    fn read(&mut self, port: u8) -> u8;

    fn write(&mut self, port: u8, data: u8);
}

} // verus!
