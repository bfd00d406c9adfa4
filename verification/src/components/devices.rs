//! Devices without state: stand-ins for hardware that is not there.

use vstd::prelude::*;
use super::IoDevice;

verus! {

/// A stand-in that answers for every port: reads give `0xFF`, writes are
/// dropped.
#[derive(Clone, Copy, Debug, PartialEq, Eq, Structural)]
pub struct DummyIODevice;

impl IoDevice for DummyIODevice {
    fn is_valid_port(&self, port: u8) -> (valid: bool)
        ensures
            valid,
    {
        true
    }

    fn read(&mut self, port: u8) -> (data: u8)
        ensures
            data == 0xFF,
    {
        0xFF
    }

    fn write(&mut self, port: u8, data: u8) {
    }
}

/// An empty slot: it answers for no port.
#[derive(Clone, Copy, Debug, PartialEq, Eq, Structural)]
pub struct EmptySlot;

impl IoDevice for EmptySlot {
    fn is_valid_port(&self, port: u8) -> (valid: bool)
        ensures
            !valid,
    {
        false
    }

    fn read(&mut self, port: u8) -> (data: u8)
        ensures
            data == 0xFF,
    {
        0xFF
    }

    fn write(&mut self, port: u8, data: u8) {
    }
}

} // verus!
