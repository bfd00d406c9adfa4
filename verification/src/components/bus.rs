//! The I/O bus: an ordered list of devices, each answering for the ports it
//! claims. A port access goes to the first device in registration order that
//! claims the port.

use vstd::prelude::*;
use super::IoDevice;
use super::devices::{DummyIODevice, EmptySlot};
use super::ppi::Ppi;
use super::sound::{AY38910, PsgState};
use super::vdp::{TMS9918, VdpState};

verus! {

/// The byte that a read returns when no device claims the port.
pub const FLOATING_BUS: u8 = 0xFF;

/// One of the devices that can sit on the bus.
#[derive(Debug)]
pub enum Device {
    Vdp(TMS9918),
    Psg(AY38910),
    Ppi(Ppi),
    Dummy(DummyIODevice),
    Empty(EmptySlot),
}

/// The state of a device as a mathematical value.
#[verifier::ext_equal]
pub enum DeviceState {
    Vdp(VdpState),
    Psg(PsgState),
    Ppi(Ppi),
    Dummy,
    Empty,
}

impl DeviceState {
    /// Whether the device is well-formed: a VDP and a PSG have memories of
    /// the right sizes, an address within 14 bits and a latch within 4.
    pub open spec fn wf(self) -> bool {
        match self {
            DeviceState::Vdp(vdp) => vdp.wf(),
            DeviceState::Psg(psg) => psg.wf(),
            _ => true,
        }
    }

    /// Whether the device answers for `port`.
    pub open spec fn claims(self, port: u8) -> bool {
        match self {
            DeviceState::Vdp(_) => port == 0x98 || port == 0x99,
            DeviceState::Psg(_) => port == 0xA0 || port == 0xA1,
            DeviceState::Ppi(_) => Ppi::claims(port),
            DeviceState::Dummy => true,
            DeviceState::Empty => false,
        }
    }

    /// The byte that a read of `port` returns.
    pub open spec fn read_value(self, port: u8) -> u8 {
        match self {
            DeviceState::Vdp(vdp) => vdp.read_value(port),
            DeviceState::Psg(psg) => psg.read_value(port),
            DeviceState::Ppi(ppi) => ppi.read_value(port),
            DeviceState::Dummy => 0xFF,
            DeviceState::Empty => 0xFF,
        }
    }

    /// The device after a read of `port`.
    pub open spec fn after_read(self, port: u8) -> DeviceState {
        match self {
            DeviceState::Vdp(vdp) => DeviceState::Vdp(vdp.after_read(port)),
            _ => self,
        }
    }

    /// The device after `data` is written to `port`.
    pub open spec fn after_write(self, port: u8, data: u8) -> DeviceState {
        match self {
            DeviceState::Vdp(vdp) => DeviceState::Vdp(vdp.after_write(port, data)),
            DeviceState::Psg(psg) => DeviceState::Psg(psg.after_write(port, data)),
            DeviceState::Ppi(ppi) => DeviceState::Ppi(ppi.after_write(port, data)),
            DeviceState::Dummy => self,
            DeviceState::Empty => self,
        }
    }

    /// The device after a machine reset: VDP and PSG go back to power-on, the
    /// others stay as they are.
    pub open spec fn after_reset(self) -> DeviceState {
        match self {
            DeviceState::Vdp(_) => DeviceState::Vdp(VdpState::power_on()),
            DeviceState::Psg(_) => DeviceState::Psg(PsgState::power_on()),
            _ => self,
        }
    }
}

impl View for Device {
    type V = DeviceState;

    open spec fn view(&self) -> DeviceState {
        match self {
            Device::Vdp(vdp) => DeviceState::Vdp(vdp@),
            Device::Psg(psg) => DeviceState::Psg(psg@),
            Device::Ppi(ppi) => DeviceState::Ppi(*ppi),
            Device::Dummy(_) => DeviceState::Dummy,
            Device::Empty(_) => DeviceState::Empty,
        }
    }
}

impl Device {
    /// Puts a VDP or a PSG back into its power-on state; other devices stay.
    pub fn reset(&mut self)
        ensures
            final(self)@ == old(self)@.after_reset(),
    {
        match self {
            Device::Vdp(vdp) => vdp.reset(),
            Device::Psg(psg) => psg.reset(),
            _ => {},
        }
    }
}

impl IoDevice for Device {
    fn is_valid_port(&self, port: u8) -> (valid: bool)
        ensures
            valid == self@.claims(port),
    {
        match self {
            Device::Vdp(vdp) => vdp.is_valid_port(port),
            Device::Psg(psg) => psg.is_valid_port(port),
            Device::Ppi(ppi) => IoDevice::is_valid_port(ppi, port),
            Device::Dummy(dummy) => dummy.is_valid_port(port),
            Device::Empty(empty) => empty.is_valid_port(port),
        }
    }

    fn read(&mut self, port: u8) -> (data: u8)
        ensures
            data == old(self)@.read_value(port),
            final(self)@ == old(self)@.after_read(port),
    {
        match self {
            Device::Vdp(vdp) => vdp.read(port),
            Device::Psg(psg) => psg.read(port),
            Device::Ppi(ppi) => ppi.read(port),
            Device::Dummy(dummy) => dummy.read(port),
            Device::Empty(empty) => empty.read(port),
        }
    }

    fn write(&mut self, port: u8, data: u8)
        ensures
            final(self)@ == old(self)@.after_write(port, data),
    {
        match self {
            Device::Vdp(vdp) => vdp.write(port, data),
            Device::Psg(psg) => psg.write(port, data),
            Device::Ppi(ppi) => ppi.write(port, data),
            Device::Dummy(dummy) => dummy.write(port, data),
            Device::Empty(empty) => empty.write(port, data),
        }
    }
}

/// The I/O bus.
#[derive(Debug)]
pub struct Bus {
    pub slot_count: u8,
    pub slots: Vec<EmptySlot>,
    pub io_devices: Vec<Device>,
    pub vdp_io_clock: u8,
    pub primary_slot_config: u8,
    pub slot3_secondary_config: u8,
    /// How many accesses went to a port that no device claims; it stops
    /// counting at the largest `u64`.
    pub invalid_port_count: u64,
    /// The port of the latest such access.
    pub last_invalid_port: Option<u8>,
}

/// The state of the bus as a mathematical value.
#[verifier::ext_equal]
pub struct BusState {
    pub slot_count: u8,
    pub slots: nat,
    pub devices: Seq<DeviceState>,
    pub vdp_io_clock: u8,
    pub primary_slot_config: u8,
    pub slot3_secondary_config: u8,
    pub invalid_port_count: u64,
    pub last_invalid_port: Option<u8>,
}

/// The index of the first device at or after `start` that claims `port`, or
/// the number of devices if none does.
pub open spec fn first_claimant(devices: Seq<DeviceState>, port: u8, start: int) -> int
    decreases devices.len() - start,
{
    if start < 0 || start >= devices.len() {
        devices.len() as int
    } else if devices[start].claims(port) {
        start
    } else {
        first_claimant(devices, port, start + 1)
    }
}

/// The index of the first VDP at or after `start`, or the number of devices if
/// there is none.
pub open spec fn first_vdp(devices: Seq<DeviceState>, start: int) -> int
    decreases devices.len() - start,
{
    if start < 0 || start >= devices.len() {
        devices.len() as int
    } else if devices[start] is Vdp {
        start
    } else {
        first_vdp(devices, start + 1)
    }
}

/// The count of invalid accesses after one more.
pub open spec fn count_after_invalid(count: u64) -> u64 {
    if count == u64::MAX {
        count
    } else {
        (count + 1) as u64
    }
}

impl BusState {
    /// Whether every device on the bus is well-formed.
    pub open spec fn wf(self) -> bool {
        forall|i: int| 0 <= i < self.devices.len() ==> (#[trigger] self.devices[i]).wf()
    }

    /// The bus as it is created: four empty slots and no I/O device.
    pub open spec fn power_on() -> BusState {
        BusState {
            slot_count: 4,
            slots: 4,
            devices: Seq::empty(),
            vdp_io_clock: 0,
            primary_slot_config: 0,
            slot3_secondary_config: 0,
            invalid_port_count: 0,
            last_invalid_port: None,
        }
    }

    /// The index of the device that handles `port`, if any device claims it.
    pub open spec fn handler(self, port: u8) -> Option<int> {
        let index = first_claimant(self.devices, port, 0);
        if index < self.devices.len() {
            Some(index)
        } else {
            None
        }
    }

    /// The bus after an access to a port that no device claims was noted.
    pub open spec fn after_invalid_port(self, port: u8) -> BusState {
        BusState {
            invalid_port_count: count_after_invalid(self.invalid_port_count),
            last_invalid_port: Some(port),
            ..self
        }
    }

    /// The bus with `device` appended to its list.
    pub open spec fn after_register(self, device: DeviceState) -> BusState {
        BusState { devices: self.devices.push(device), ..self }
    }

    /// The byte that a read of `port` returns: what the handling device
    /// returns, or `0xFF` if no device claims the port.
    pub open spec fn input_value(self, port: u8) -> u8 {
        match self.handler(port) {
            Some(index) => self.devices[index].read_value(port),
            None => 0xFF,
        }
    }

    /// The bus after a read of `port`: the handling device has seen the read;
    /// without one, the invalid access is noted.
    pub open spec fn after_input(self, port: u8) -> BusState {
        match self.handler(port) {
            Some(index) => BusState {
                devices: self.devices.update(index, self.devices[index].after_read(port)),
                ..self
            },
            None => self.after_invalid_port(port),
        }
    }

    /// The bus after `data` is written to `port`: the handling device has
    /// taken the byte; without one, the byte is dropped and the invalid access
    /// is noted.
    pub open spec fn after_output(self, port: u8, data: u8) -> BusState {
        match self.handler(port) {
            Some(index) => BusState {
                devices: self.devices.update(index, self.devices[index].after_write(port, data)),
                ..self
            },
            None => self.after_invalid_port(port),
        }
    }

    /// The bus after its own registers are reset; the devices stay.
    pub open spec fn after_reset(self) -> BusState {
        BusState { vdp_io_clock: 0, primary_slot_config: 0, ..self }
    }

    /// The bus after every device on it has been reset.
    pub open spec fn after_device_reset(self) -> BusState {
        BusState {
            devices: Seq::new(self.devices.len(), |i: int| self.devices[i].after_reset()),
            ..self
        }
    }
}

impl View for Bus {
    type V = BusState;

    open spec fn view(&self) -> BusState {
        BusState {
            slot_count: self.slot_count,
            slots: self.slots@.len(),
            devices: Seq::new(self.io_devices@.len(), |i: int| self.io_devices@[i]@),
            vdp_io_clock: self.vdp_io_clock,
            primary_slot_config: self.primary_slot_config,
            slot3_secondary_config: self.slot3_secondary_config,
            invalid_port_count: self.invalid_port_count,
            last_invalid_port: self.last_invalid_port,
        }
    }
}

impl Bus {
    /// A bus with four empty slots and no I/O device.
    pub fn new() -> (bus: Bus)
        ensures
            bus@ == BusState::power_on(),
    {
        let slot_count: u8 = 4;
        let mut slots: Vec<EmptySlot> = Vec::with_capacity(slot_count as usize);
        let mut filled: u8 = 0;
        while filled < slot_count
            invariant
                filled <= slot_count,
                slots@.len() == filled,
            decreases slot_count - filled,
        {
            slots.push(EmptySlot);
            filled = filled + 1;
        }
        Bus {
            slot_count,
            slots,
            io_devices: Vec::new(),
            vdp_io_clock: 0,
            primary_slot_config: 0,
            slot3_secondary_config: 0,
            invalid_port_count: 0,
            last_invalid_port: None,
        }
    }

    /// Appends `device` to the list: it comes after every device registered
    /// before it.
    pub fn register_device(&mut self, device: Device)
        ensures
            final(self)@ == old(self)@.after_register(device@),
    {
        self.io_devices.push(device);
    }

    /// The index of the first device that claims `port`.
    pub fn find_device(&self, port: u8) -> (found: Option<usize>)
        ensures
            match found {
                Some(index) => self@.handler(port) == Some(index as int) && index
                    < self.io_devices@.len(),
                None => self@.handler(port).is_none(),
            },
    {
        let mut index: usize = 0;
        while index < self.io_devices.len()
            invariant
                index <= self.io_devices@.len(),
                first_claimant(self@.devices, port, 0) == first_claimant(
                    self@.devices,
                    port,
                    index as int,
                ),
            decreases self.io_devices@.len() - index,
        {
            if self.io_devices[index].is_valid_port(port) {
                return Some(index);
            }
            index = index + 1;
        }
        None
    }

    /// Notes an access to a port that no device claims.
    fn note_invalid_port(&mut self, port: u8)
        ensures
            final(self)@ == old(self)@.after_invalid_port(port),
    {
        if self.invalid_port_count < u64::MAX {
            self.invalid_port_count = self.invalid_port_count + 1;
        }
        self.last_invalid_port = Some(port);
    }

    /// Reads `port`: from the first device that claims it, or `0xFF` with the
    /// invalid access noted.
    pub fn input(&mut self, port: u8) -> (data: u8)
        ensures
            data == old(self)@.input_value(port),
            final(self)@ == old(self)@.after_input(port),
    {
        match self.find_device(port) {
            Some(index) => self.io_devices[index].read(port),
            None => {
                self.note_invalid_port(port);
                FLOATING_BUS
            },
        }
    }

    /// Writes `data` to `port`: to the first device that claims it, or nowhere
    /// with the invalid access noted.
    pub fn output(&mut self, port: u8, data: u8)
        ensures
            final(self)@ == old(self)@.after_output(port, data),
    {
        match self.find_device(port) {
            Some(index) => self.io_devices[index].write(port, data),
            None => self.note_invalid_port(port),
        }
    }

    /// The latest access to a port that no device claims, as the warning it
    /// is.
    pub fn last_warning(&self) -> (warning: Option<crate::error::MachineError>)
        ensures
            warning == match self.last_invalid_port {
                Some(port) => Some(crate::error::MachineError::InvalidPort { port }),
                None => None,
            },
    {
        match self.last_invalid_port {
            Some(port) => Some(crate::error::MachineError::InvalidPort { port }),
            None => None,
        }
    }

    /// The first VDP on the bus.
    pub fn vdp(&self) -> (found: Option<&TMS9918>)
        ensures
            match found {
                Some(vdp) => first_vdp(self@.devices, 0) < self@.devices.len()
                    && self@.devices[first_vdp(self@.devices, 0)] == DeviceState::Vdp(vdp@),
                None => first_vdp(self@.devices, 0) == self@.devices.len(),
            },
    {
        let mut index: usize = 0;
        while index < self.io_devices.len()
            invariant
                index <= self.io_devices@.len(),
                first_vdp(self@.devices, 0) == first_vdp(self@.devices, index as int),
            decreases self.io_devices@.len() - index,
        {
            match &self.io_devices[index] {
                Device::Vdp(vdp) => {
                    return Some(vdp);
                },
                _ => {},
            }
            index = index + 1;
        }
        None
    }

    /// Resets the bus's own registers; the devices stay as they are.
    pub fn reset(&mut self)
        ensures
            final(self)@ == old(self)@.after_reset(),
    {
        self.vdp_io_clock = 0;
        self.primary_slot_config = 0;
    }

    /// Resets every device on the bus.
    pub fn reset_devices(&mut self)
        ensures
            final(self)@ == old(self)@.after_device_reset(),
    {
        let mut index: usize = 0;
        while index < self.io_devices.len()
            invariant
                index <= self.io_devices@.len(),
                self.io_devices@.len() == old(self).io_devices@.len(),
                forall|i: int|
                    0 <= i < index ==> (#[trigger] self.io_devices@[i])@ == old(
                        self,
                    ).io_devices@[i]@.after_reset(),
                forall|i: int|
                    index <= i < self.io_devices@.len() ==> (#[trigger] self.io_devices@[i])
                        == old(self).io_devices@[i],
                (BusState { devices: old(self)@.devices, ..self@ }) == old(self)@,
            decreases self.io_devices@.len() - index,
        {
            self.io_devices[index].reset();
            index = index + 1;
        }
    }
}

/// The tie-break of the bus: the handler of a port claims it, and no device
/// registered before the handler does; where there is no handler, no device
/// claims the port.
pub proof fn lemma_handler_is_first(bus: BusState, port: u8)
    ensures
        match bus.handler(port) {
            Some(index) => 0 <= index < bus.devices.len() && bus.devices[index].claims(port)
                && forall|j: int| 0 <= j < index ==> !(#[trigger] bus.devices[j]).claims(port),
            None => forall|j: int|
                0 <= j < bus.devices.len() ==> !(#[trigger] bus.devices[j]).claims(port),
        },
{
    lemma_first_claimant(bus.devices, port, 0);
}

/// `first_claimant` returns an index from `start` up to the number of devices;
/// no device from `start` up to it claims the port, and the device at it does.
pub proof fn lemma_first_claimant(devices: Seq<DeviceState>, port: u8, start: int)
    requires
        0 <= start <= devices.len(),
    ensures
        start <= first_claimant(devices, port, start) <= devices.len(),
        first_claimant(devices, port, start) < devices.len() ==> devices[first_claimant(
            devices,
            port,
            start,
        )].claims(port),
        forall|j: int|
            start <= j < first_claimant(devices, port, start) ==> !(#[trigger] devices[j]).claims(
                port,
            ),
    decreases devices.len() - start,
{
    if start < devices.len() && !devices[start].claims(port) {
        lemma_first_claimant(devices, port, start + 1);
    }
}

/// Whatever goes over the bus, its devices stay well-formed: after a read,
/// after a write, after a reset of the devices, and after a well-formed
/// device has been registered.
pub proof fn lemma_bus_keeps_wf(bus: BusState, port: u8, data: u8, device: DeviceState)
    requires
        bus.wf(),
    ensures
        bus.after_input(port).wf(),
        bus.after_output(port, data).wf(),
        bus.after_device_reset().wf(),
        bus.after_reset().wf(),
        device.wf() ==> bus.after_register(device).wf(),
{
    lemma_first_claimant(bus.devices, port, 0);
    match bus.handler(port) {
        Some(index) => {
            let before = bus.devices[index];
            assert(before.wf());
            match before {
                DeviceState::Vdp(vdp) => {
                    super::vdp::lemma_port_access_keeps_wf(vdp, port, data);
                },
                _ => {},
            }
            assert(before.after_read(port).wf());
            assert(before.after_write(port, data).wf());
        },
        None => {},
    }
    assert forall|i: int| 0 <= i < bus.devices.len() implies (#[trigger] bus.after_device_reset().devices[i]).wf() by {
        assert(bus.devices[i].wf());
    }
    if device.wf() {
        assert forall|i: int| 0 <= i < bus.after_register(device).devices.len() implies (
        #[trigger] bus.after_register(device).devices[i]).wf() by {
            if i < bus.devices.len() {
                assert(bus.devices[i].wf());
            }
        }
    }
}

} // verus!
