//! The machine: processor, memory and devices wired together, stepped one
//! instruction and one scanline at a time.

use std::collections::HashMap;
use vstd::prelude::*;
use crate::components::bus::{BusState, Device, DeviceState};
use crate::components::cpu::Z80;
use crate::components::cpu_state::Z80State;
use crate::components::instruction::{disassemble, listing_addresses, Instruction};
use crate::components::memory::{Memory, MemoryState};
use crate::components::ppi::Ppi;
use crate::components::sound::{AY38910, PsgState};
use crate::components::vdp::{TMS9918, VdpState};
use crate::error::MachineError;
use crate::hash::{calculate_memory_hash, memory_hash_of};
use crate::utils::{decimal_text, is_decimal_text};

verus! {

/// The most instructions that a program listing holds.
pub const LISTING_LIMIT: usize = 101;

/// Scanlines in a frame: the scanline counter counts modulo this.
pub const SCANLINES: u16 = 192;

/// The machine: a processor with its memory, and on its bus the VDP, the PSG
/// and the PPI; the scanline counter; and what a debugger keeps about it.
pub struct Msx {
    pub cpu: Z80,
    pub current_scanline: u16,
    /// Frames completed so far; it stops counting at the largest `u64`.
    pub frames: u64,
    pub breakpoints: Vec<u16>,
    pub open_msx: bool,
    pub break_on_mismatch: bool,
    pub track_flags: bool,
    /// The memory image that the latest delta was taken against.
    pub previous_memory: Option<Vec<u8>>,
    /// The hash of that image.
    pub memory_hash: u64,
}

/// The machine as a mathematical value.
#[verifier::ext_equal]
pub struct MsxState {
    pub cpu: Z80State,
    pub current_scanline: u16,
    pub frames: u64,
    pub breakpoints: Seq<u16>,
    pub open_msx: bool,
    pub break_on_mismatch: bool,
    pub track_flags: bool,
    pub previous_memory: Option<Seq<u8>>,
    pub memory_hash: u64,
}

/// When a run stops of its own accord.
#[derive(Clone, Copy, Debug, PartialEq, Eq, Structural)]
pub enum Until {
    /// The program counter is at the address.
    Pc(u16),
    /// The program counter is at a breakpoint.
    Breakpoint,
    /// The step counter has come up to the number.
    Cycles(u64),
    /// Never: the run goes on until the processor idles.
    Halt,
}

/// How a run ended.
#[derive(Clone, Copy, Debug, PartialEq, Eq, Structural)]
pub enum RunEnd {
    /// The stop condition holds.
    Reached,
    /// The processor is halted and no interrupt is pending.
    Halted,
}

impl MsxState {
    /// The machine at power-on: memory and processor at power-on, and on the
    /// bus a VDP, a PSG and a PPI, in that order.
    pub open spec fn power_on() -> MsxState {
        MsxState {
            cpu: Z80State {
                bus: BusState::power_on().after_register(
                    DeviceState::Vdp(VdpState::power_on()),
                ).after_register(DeviceState::Psg(PsgState::power_on())).after_register(
                    DeviceState::Ppi(Ppi::power_on()),
                ),
                ..Z80State::power_on(MemoryState::power_on())
            },
            current_scanline: 0,
            frames: 0,
            breakpoints: Seq::empty(),
            open_msx: false,
            break_on_mismatch: false,
            track_flags: false,
            previous_memory: None,
            memory_hash: 0,
        }
    }

    /// The scanline after the current one.
    pub open spec fn next_scanline(self) -> u16 {
        ((self.current_scanline + 1) % 192) as u16
    }

    /// Whether the step that ends the current scanline completes a frame.
    pub open spec fn completes_frame(self) -> bool {
        self.next_scanline() == 0
    }

    /// The machine after a step of the processor that gave `cpu`: the
    /// scanline counter has moved on, and on its wrap a frame is counted.
    pub open spec fn after_scanline(self, cpu: Z80State) -> MsxState {
        MsxState {
            cpu,
            current_scanline: self.next_scanline(),
            frames: if self.completes_frame() && self.frames < u64::MAX {
                (self.frames + 1) as u64
            } else {
                self.frames
            },
            ..self
        }
    }

    /// One step of the machine: a step of the processor, then the scanline.
    pub open spec fn step(self) -> Result<MsxState, MachineError> {
        match self.cpu.step() {
            Ok(cpu) => Ok(self.after_scanline(cpu)),
            Err(error) => Err(error),
        }
    }

    /// Whether the machine has nothing left to do: the processor is halted and
    /// no interrupt is pending.
    pub open spec fn idle(self) -> bool {
        self.cpu.halted && !self.cpu.interrupt_request
    }

    /// Whether the stop condition `until` holds.
    pub open spec fn reached(self, until: Until) -> bool {
        match until {
            Until::Pc(address) => self.cpu.pc == address,
            Until::Breakpoint => self.breakpoints.contains(self.cpu.pc),
            Until::Cycles(count) => self.cpu.cycles >= count,
            Until::Halt => false,
        }
    }

    /// Where a run ends and how: the machine steps, at least once, until a
    /// step fails, the stop condition holds after a step, or the machine
    /// idles after a step. The failing step leaves the machine as it was
    /// before it.
    pub open spec fn run(self, until: Until) -> (MsxState, Result<RunEnd, MachineError>)
        decreases u64::MAX - self.cpu.cycles,
    {
        match self.step() {
            Err(error) => (self, Err(error)),
            Ok(after) => if after.reached(until) {
                (after, Ok(RunEnd::Reached))
            } else if after.idle() {
                (after, Ok(RunEnd::Halted))
            } else {
                after.run(until)
            },
        }
    }

    /// Whether a delta holds all of memory: there is no earlier image, or the
    /// client does not name the hash of the earlier image, in decimal.
    pub open spec fn sends_all(self, client_hash: Seq<char>) -> bool {
        self.previous_memory.is_none() || client_hash != decimal_text(self.memory_hash as nat)
    }

    /// The bytes that a delta reports: all of memory, or the bytes that
    /// differ from the earlier image, each under its address.
    pub open spec fn delta(self, client_hash: Seq<char>) -> Map<u16, u8> {
        if self.sends_all(client_hash) {
            Map::new(|address: u16| true, |address: u16| self.cpu.memory.data[address as int])
        } else {
            Map::new(
                |address: u16|
                    address < self.previous_memory.unwrap().len()
                        && self.previous_memory.unwrap()[address as int]
                        != self.cpu.memory.data[address as int],
                |address: u16| self.cpu.memory.data[address as int],
            )
        }
    }

    /// The machine after it has noted the current memory as the image that
    /// the next delta is taken against, with `hash` as its hash.
    pub open spec fn after_remember(self, hash: u64) -> MsxState {
        MsxState { previous_memory: Some(self.cpu.memory.data), memory_hash: hash, ..self }
    }

    /// The machine after a reset: the processor and the VDP and PSG on the
    /// bus are back at power-on; memory is as it was.
    pub open spec fn after_reset(self) -> MsxState {
        MsxState {
            cpu: Z80State { bus: self.cpu.bus.after_device_reset(), ..self.cpu.after_reset() },
            ..self
        }
    }
}

impl View for Msx {
    type V = MsxState;

    open spec fn view(&self) -> MsxState {
        MsxState {
            cpu: self.cpu@,
            current_scanline: self.current_scanline,
            frames: self.frames,
            breakpoints: self.breakpoints@,
            open_msx: self.open_msx,
            break_on_mismatch: self.break_on_mismatch,
            track_flags: self.track_flags,
            previous_memory: match self.previous_memory {
                Some(image) => Some(image@),
                None => None,
            },
            memory_hash: self.memory_hash,
        }
    }
}

impl Msx {
    /// A machine at power-on.
    pub fn new() -> (msx: Msx)
        ensures
            msx@ == MsxState::power_on(),
    {
        let memory = Memory::new();
        let mut cpu = Z80::new(memory);
        cpu.register_device(Device::Vdp(TMS9918::new()));
        cpu.register_device(Device::Psg(AY38910::new()));
        cpu.register_device(Device::Ppi(Ppi::new()));
        Msx {
            cpu,
            current_scanline: 0,
            frames: 0,
            breakpoints: Vec::new(),
            open_msx: false,
            break_on_mismatch: false,
            track_flags: false,
            previous_memory: None,
            memory_hash: 0,
        }
    }

    /// The bytes of memory that the client does not have yet. Then the
    /// current memory and its hash are noted for the next call.
    pub fn delta_memory(&mut self, client_hash: &str) -> (delta: HashMap<u16, u8>)
        ensures
            delta@ == old(self)@.delta(client_hash@),
            final(self)@ == old(self)@.after_remember(memory_hash_of(old(self)@.cpu.memory.data)),
    {
        let delta = self.delta_for(client_hash);
        let hash = calculate_memory_hash(self.cpu.memory.data.as_slice());
        self.remember_memory(hash);
        delta
    }

    /// The bytes of memory that a client who names `client_hash` does not
    /// have yet.
    pub fn delta_for(&self, client_hash: &str) -> (delta: HashMap<u16, u8>)
        ensures
            delta@ == self@.delta(client_hash@),
    {
        let mut delta: HashMap<u16, u8> = HashMap::new();
        let all = match &self.previous_memory {
            None => true,
            Some(_) => !is_decimal_text(client_hash, self.memory_hash),
        };
        let mut index: usize = 0;
        while index < 0x10000
            invariant
                index <= 0x10000,
                all == self@.sends_all(client_hash@),
                forall|address: u16|
                    delta@.contains_key(address) <==> address < index && self@.delta(
                        client_hash@,
                    ).contains_key(address),
                forall|address: u16|
                    delta@.contains_key(address) ==> delta@[address] == self@.delta(
                        client_hash@,
                    )[address],
            decreases 0x10000 - index,
        {
            let current = self.cpu.memory.data[index];
            let report = if all {
                true
            } else {
                match &self.previous_memory {
                    Some(previous) => index < previous.len() && previous[index] != current,
                    None => true,
                }
            };
            if report {
                delta.insert(index as u16, current);
            }
            index = index + 1;
        }
        assert(delta@ =~= self@.delta(client_hash@));
        delta
    }

    /// Notes the current memory as the image that the next delta is taken
    /// against, and `hash` as its hash.
    pub fn remember_memory(&mut self, hash: u64)
        ensures
            final(self)@ == old(self)@.after_remember(hash),
    {
        self.memory_hash = hash;
        self.previous_memory = Some(vstd::slice::slice_to_vec(self.cpu.memory.data.as_slice()));
    }

    /// Adds `address` to the breakpoints.
    pub fn add_breakpoint(&mut self, address: u16)
        ensures
            final(self)@ == (MsxState {
                breakpoints: old(self)@.breakpoints.push(address),
                ..old(self)@
            }),
    {
        self.breakpoints.push(address);
    }

    /// Whether `address` is a breakpoint.
    pub fn is_breakpoint(&self, address: u16) -> (found: bool)
        ensures
            found == self@.breakpoints.contains(address),
    {
        let mut index: usize = 0;
        while index < self.breakpoints.len()
            invariant
                index <= self.breakpoints@.len(),
                forall|k: int| 0 <= k < index ==> self.breakpoints@[k] != address,
            decreases self.breakpoints@.len() - index,
        {
            if self.breakpoints[index] == address {
                return true;
            }
            index = index + 1;
        }
        false
    }

    /// Loads a BIOS image at address 0. An image that does not fit the
    /// address space is refused.
    pub fn load_bios(&mut self, image: &[u8]) -> (result: Result<(), MachineError>)
        ensures
            image@.len() > 0x10000 ==> result == Err::<(), MachineError>(
                MachineError::BiosLoadFailure { len: image@.len() as usize },
            ) && final(self)@ == old(self)@,
            image@.len() <= 0x10000 ==> result.is_ok() && final(self)@ == (MsxState {
                cpu: Z80State {
                    memory: old(self)@.cpu.memory.after_load(0, image@),
                    ..old(self)@.cpu
                },
                ..old(self)@
            }),
    {
        self.cpu.memory.load_bios(image)
    }

    /// Loads a program at `load_address` and up, through the write policy of
    /// the memory: what lands in the ROM half fails in a strict memory, and
    /// then nothing is loaded.
    pub fn load_binary(&mut self, image: &[u8], load_address: u16) -> (result: Result<
        (),
        MachineError,
    >)
        ensures
            match old(self)@.cpu.store_bytes(load_address, image@) {
                Ok(cpu) => result.is_ok() && final(self)@ == (MsxState { cpu, ..old(self)@ }),
                Err(error) => result == Err::<(), MachineError>(error) && final(self)@ == old(
                    self,
                )@,
            },
    {
        self.cpu.store_bytes(load_address, image)
    }

    /// The program from the program counter on, as a listing of at most
    /// [`LISTING_LIMIT`] instructions.
    pub fn program_listing(&self) -> (listing: Vec<Instruction>)
        ensures
            listing@.len() == listing_addresses(self@.cpu.memory, self.cpu.pc, 101).len(),
            forall|i: int|
                0 <= i < listing@.len() ==> (#[trigger] listing@[i]).is_at(
                    self@.cpu.memory,
                    listing_addresses(self@.cpu.memory, self.cpu.pc, 101)[i],
                ),
    {
        disassemble(&self.cpu.memory, self.cpu.pc, LISTING_LIMIT)
    }

    /// Reinitialises the processor, the VDP and the PSG; memory stays loaded.
    pub fn reset(&mut self)
        ensures
            final(self)@ == old(self)@.after_reset(),
    {
        self.cpu.reset();
        self.cpu.bus.reset_devices();
    }

    /// Raises the interrupt line of the processor.
    pub fn request_interrupt(&mut self)
        ensures
            final(self)@ == (MsxState {
                cpu: Z80State { interrupt_request: true, ..old(self)@.cpu },
                ..old(self)@
            }),
    {
        self.cpu.request_interrupt();
    }

    /// The scanline that the next step ends.
    pub fn current_scanline(&self) -> (line: u16)
        ensures
            line == self.current_scanline,
    {
        self.current_scanline
    }

    /// One step of the machine: one step of the processor, then the scanline
    /// counter moves on. The result tells whether the counter wrapped, which
    /// is when a frame is complete. A step that fails changes nothing.
    pub fn step(&mut self) -> (result: Result<bool, MachineError>)
        ensures
            match old(self)@.step() {
                Ok(after) => result == Ok::<bool, MachineError>(old(self)@.completes_frame())
                    && final(self)@ == after,
                Err(error) => result == Err::<bool, MachineError>(error) && final(self)@ == old(
                    self,
                )@,
            },
    {
        match self.cpu.execute_cycle() {
            Err(error) => Err(error),
            Ok(()) => {
                let next: u16 = ((self.current_scanline as u32 + 1) % (SCANLINES as u32)) as u16;
                self.current_scanline = next;
                if next == 0 && self.frames < u64::MAX {
                    self.frames = self.frames + 1;
                }
                Ok(next == 0)
            },
        }
    }

    /// Whether a run under a debugger stops for the prompt after a step: at
    /// a breakpoint, at a mismatch with the reference emulator where the
    /// machine is set to break on one, or where the user asked for a single
    /// step.
    pub fn stops_for_prompt(&self, mismatch: bool, single_step: bool) -> (stops: bool)
        ensures
            stops == (single_step || (self.break_on_mismatch && mismatch)
                || self@.breakpoints.contains(self.cpu.pc)),
    {
        single_step || (self.break_on_mismatch && mismatch) || self.is_breakpoint(self.cpu.pc)
    }

    /// Whether the stop condition `until` holds.
    pub fn has_reached(&self, until: Until) -> (reached: bool)
        ensures
            reached == self@.reached(until),
    {
        match until {
            Until::Pc(address) => self.cpu.pc == address,
            Until::Breakpoint => self.is_breakpoint(self.cpu.pc),
            Until::Cycles(count) => self.cpu.cycles >= count,
            Until::Halt => false,
        }
    }

    /// Steps the machine, at least once, until a step fails, the stop
    /// condition holds, or the processor is halted with no interrupt pending.
    /// A halted processor with an interrupt pending and interrupts disabled
    /// goes on idling, step by step, until the stop condition or the step
    /// limit ends the run.
    pub fn run_until(&mut self, until: Until) -> (result: Result<RunEnd, MachineError>)
        ensures
            (final(self)@, result) == old(self)@.run(until),
    {
        loop
            invariant
                self@.run(until) == old(self)@.run(until),
            decreases u64::MAX - self.cpu.cycles,
        {
            match self.step() {
                Err(error) => {
                    return Err(error);
                },
                Ok(_) => {},
            }
            if self.has_reached(until) {
                return Ok(RunEnd::Reached);
            }
            if self.cpu.halted && !self.cpu.interrupt_request {
                return Ok(RunEnd::Halted);
            }
        }
    }
}

/// The machine at power-on is well-formed: its memory spans the address
/// space and every device on its bus is well-formed.
pub proof fn lemma_power_on_is_wf()
    ensures
        MsxState::power_on().cpu.wf(),
        MsxState::power_on().cpu.bus.wf(),
        MsxState::power_on().cpu.bus.devices.len() == 3,
{
    let bus = MsxState::power_on().cpu.bus;
    assert(bus.devices[0] == DeviceState::Vdp(VdpState::power_on()));
    assert(bus.devices[1] == DeviceState::Psg(PsgState::power_on()));
    assert(bus.devices[2] == DeviceState::Ppi(Ppi::power_on()));
}

} // verus!
