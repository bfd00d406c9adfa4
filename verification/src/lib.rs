//! An emulator core for an MSX-class home computer: a Z80 interpreter, its
//! 64 KiB address space, and the VDP, PSG and PPI behind the I/O bus.

pub mod bits;
pub mod components;
pub mod debugger;
pub mod error;
pub mod hash;
pub mod msx;
pub mod open_msx;
pub mod renderer;
pub mod utils;
