//! The ways in which the machine can fail.

use vstd::prelude::*;

verus! {

/// An error of the machine. Unknown opcodes, writes to ROM and a BIOS that
/// does not fit are fatal; an unclaimed port and the step limit are not.
#[derive(Clone, Copy, Debug, PartialEq, Eq, Structural)]
pub enum MachineError {
    /// The byte at `addr` is no instruction of this core, or does not
    /// continue the prefix before it.
    UnknownOpcode { addr: u16, byte: u8 },
    /// A write went to `addr`, inside the ROM half of the address space,
    /// while the memory was strict about it.
    WriteToRom { addr: u16 },
    /// No device on the bus claims `port`.
    InvalidPort { port: u8 },
    /// The configured cap on retired steps has been reached.
    StepLimitReached,
    /// A BIOS image of `len` bytes does not fit the address space.
    BiosLoadFailure { len: usize },
}

impl MachineError {
    /// Whether the machine can go on after the error: an unclaimed port and
    /// the step limit are recoverable, the rest is fatal.
    pub open spec fn recoverable(self) -> bool {
        self is InvalidPort || self is StepLimitReached
    }

    pub fn is_recoverable(&self) -> (recoverable: bool)
        ensures
            recoverable == self.recoverable(),
    {
        match self {
            MachineError::InvalidPort { .. } => true,
            MachineError::StepLimitReached => true,
            _ => false,
        }
    }

    pub fn is_fatal(&self) -> (fatal: bool)
        ensures
            fatal == !self.recoverable(),
    {
        !self.is_recoverable()
    }

    /// The name of the kind of error.
    pub fn kind(&self) -> (name: &'static str)
        ensures
            name@ == match *self {
                MachineError::UnknownOpcode { .. } => "UnknownOpcode"@,
                MachineError::WriteToRom { .. } => "WriteToRom"@,
                MachineError::InvalidPort { .. } => "InvalidPort"@,
                MachineError::StepLimitReached => "StepLimitReached"@,
                MachineError::BiosLoadFailure { .. } => "BiosLoadFailure"@,
            },
    {
        match self {
            MachineError::UnknownOpcode { .. } => "UnknownOpcode",
            MachineError::WriteToRom { .. } => "WriteToRom",
            MachineError::InvalidPort { .. } => "InvalidPort",
            MachineError::StepLimitReached => "StepLimitReached",
            MachineError::BiosLoadFailure { .. } => "BiosLoadFailure",
        }
    }
}

} // verus!
