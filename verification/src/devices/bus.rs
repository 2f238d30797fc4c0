//! Routing of guest accesses to devices by guest physical address.
//!
//! The bus has two address spaces. Addresses below the start of the gap for memory
//! mapped I/O are ports; devices claim ranges of them. Addresses from the start of the
//! gap on are cut into slots of a fixed size, and each device there has a slot of its
//! own.
use vstd::prelude::*;
use crate::arch::MMIO_LEN;
use crate::arch::MMIO_MEM_START;
use crate::devices::bus_range::BusRange;
use crate::devices::legacy::I8042Device;
use crate::devices::legacy::RTCDevice;
use crate::devices::legacy::SerialDevice;
use crate::devices::legacy::SerialDeviceView;
use crate::devices::pseudo::BootTimer;
use crate::devices::virtio::mmio::MmioTransport;
use crate::devices::virtio::mmio::MmioTransportView;

verus! {

/// Errors of bus operations.
#[derive(Copy, Clone, Debug, PartialEq, Eq, Structural)]
pub enum BusError {
    /// The new device would claim an address that it cannot have.
    Overlap,
}

impl BusError {
    /// What the error says.
    pub fn to_string(&self) -> (s: String)
        ensures
            s@ == "New device overlaps with an old device."@,
    {
        "New device overlaps with an old device.".to_owned()
    }
}

/// A device that takes every access and does nothing.
#[derive(Copy, Clone, Debug, PartialEq, Eq, Structural)]
pub struct DummyDevice;

impl DummyDevice {
    /// Takes a guest write and does nothing.
    pub fn bus_write(&mut self, _offset: u64, _data: &[u8]) {
    }

    /// Answers a guest read and leaves the buffer as it is.
    pub fn bus_read(&mut self, _offset: u64, _data: &[u8]) {
    }
}

/// A device of which every byte reads as the low byte of its offset.
#[derive(Copy, Clone, Debug, PartialEq, Eq, Structural)]
pub struct ConstantDevice;

/// What a read of `len` bytes at `offset` gives on a constant device.
pub open spec fn spec_constant_bytes(offset: u64, len: nat) -> Seq<u8> {
    Seq::new(len, |i: int| ((offset + i) % 256) as u8)
}

impl ConstantDevice {
    /// Answers a guest read: byte `i` of the buffer becomes the low byte of
    /// `offset + i`.
    pub fn bus_read(&mut self, offset: u64, data: &mut [u8])
        ensures
            final(data)@ == spec_constant_bytes(offset, old(data)@.len()),
    {
        let n: usize = data.len();
        let mut i: usize = 0;
        while i < n
            invariant
                n == data@.len(),
                data@.len() == old(data)@.len(),
                i <= n,
                forall|j: int| 0 <= j < i ==> data@[j] == ((offset + j) % 256) as u8,
            decreases n - i,
        {
            let v: u8 = (offset.wrapping_add(i as u64) % 256) as u8;
            data[i] = v;
            i = i + 1;
        }
        proof {
            assert(data@ =~= spec_constant_bytes(offset, old(data)@.len()));
        }
    }

    /// Takes a guest write and does nothing.
    pub fn bus_write(&mut self, _offset: u64, _data: &[u8]) {
    }
}

/// A device on the bus.
#[derive(Clone, Debug)]
pub enum BusDevice {
    /// The keyboard controller.
    I8042Device(I8042Device),
    /// The real time clock.
    RTCDevice(RTCDevice),
    /// The boot timer.
    BootTimer(BootTimer),
    /// The registers of a virtio device.
    MmioTransport(MmioTransport),
    /// The serial port.
    Serial(SerialDevice),
    /// A device that does nothing.
    Dummy(DummyDevice),
    /// A device that reads as its offsets.
    Constant(ConstantDevice),
}

/// A device on the bus as a mathematical value.
pub enum BusDeviceView {
    /// The keyboard controller.
    I8042Device(I8042Device),
    /// The real time clock.
    RTCDevice(RTCDevice),
    /// The boot timer.
    BootTimer(BootTimer),
    /// The registers of a virtio device.
    MmioTransport(MmioTransportView),
    /// The serial port.
    Serial(SerialDeviceView),
    /// A device that does nothing.
    Dummy,
    /// A device that reads as its offsets.
    Constant,
}

impl BusDeviceView {
    /// What a read at `offset` leaves in the buffer.
    pub open spec fn read(self, offset: u64, data: Seq<u8>) -> Seq<u8> {
        match self {
            BusDeviceView::I8042Device(x) => x.spec_read(offset, data),
            BusDeviceView::RTCDevice(x) => x.spec_read(offset, data),
            BusDeviceView::BootTimer(_) => data,
            BusDeviceView::MmioTransport(x) => x.read(offset, data),
            BusDeviceView::Serial(x) => x.read(offset, data),
            BusDeviceView::Dummy => data,
            BusDeviceView::Constant => spec_constant_bytes(offset, data.len()),
        }
    }

    /// The device after a write of `data` at `offset`.
    pub open spec fn write(self, offset: u64, data: Seq<u8>) -> BusDeviceView {
        match self {
            BusDeviceView::I8042Device(x) => BusDeviceView::I8042Device(x.spec_write(offset, data)),
            BusDeviceView::RTCDevice(x) => BusDeviceView::RTCDevice(x.spec_write(offset, data)),
            BusDeviceView::BootTimer(x) => BusDeviceView::BootTimer(x.spec_write(offset, data)),
            BusDeviceView::MmioTransport(x) => BusDeviceView::MmioTransport(x.write(offset, data)),
            BusDeviceView::Serial(x) => BusDeviceView::Serial(x.write(offset, data)),
            BusDeviceView::Dummy => BusDeviceView::Dummy,
            BusDeviceView::Constant => BusDeviceView::Constant,
        }
    }
}

impl View for BusDevice {
    type V = BusDeviceView;

    open spec fn view(&self) -> BusDeviceView {
        match *self {
            BusDevice::I8042Device(x) => BusDeviceView::I8042Device(x),
            BusDevice::RTCDevice(x) => BusDeviceView::RTCDevice(x),
            BusDevice::BootTimer(x) => BusDeviceView::BootTimer(x),
            BusDevice::MmioTransport(x) => BusDeviceView::MmioTransport(x@),
            BusDevice::Serial(x) => BusDeviceView::Serial(x@),
            BusDevice::Dummy(_) => BusDeviceView::Dummy,
            BusDevice::Constant(_) => BusDeviceView::Constant,
        }
    }
}

impl BusDevice {
    /// The keyboard controller, if the device is one.
    pub fn i8042_device_ref(&self) -> (r: Option<&I8042Device>)
        ensures
            match r {
                Some(x) => *self == BusDevice::I8042Device(*x),
                None => !(self is I8042Device),
            },
    {
        match self {
            Self::I8042Device(x) => Some(x),
            _ => None,
        }
    }

    /// The real time clock, if the device is one.
    pub fn rtc_device_ref(&self) -> (r: Option<&RTCDevice>)
        ensures
            match r {
                Some(x) => *self == BusDevice::RTCDevice(*x),
                None => !(self is RTCDevice),
            },
    {
        match self {
            Self::RTCDevice(x) => Some(x),
            _ => None,
        }
    }

    /// The boot timer, if the device is one.
    pub fn boot_timer_ref(&self) -> (r: Option<&BootTimer>)
        ensures
            match r {
                Some(x) => *self == BusDevice::BootTimer(*x),
                None => !(self is BootTimer),
            },
    {
        match self {
            Self::BootTimer(x) => Some(x),
            _ => None,
        }
    }

    /// The registers of a virtio device, if the device is that.
    pub fn mmio_transport_ref(&self) -> (r: Option<&MmioTransport>)
        ensures
            match r {
                Some(x) => *self == BusDevice::MmioTransport(*x),
                None => !(self is MmioTransport),
            },
    {
        match self {
            Self::MmioTransport(x) => Some(x),
            _ => None,
        }
    }

    /// The serial port, if the device is one.
    pub fn serial_ref(&self) -> (r: Option<&SerialDevice>)
        ensures
            match r {
                Some(x) => *self == BusDevice::Serial(*x),
                None => !(self is Serial),
            },
    {
        match self {
            Self::Serial(x) => Some(x),
            _ => None,
        }
    }

    /// The keyboard controller, to change it, if the device is one.
    pub fn i8042_device_mut(&mut self) -> (r: Option<&mut I8042Device>)
        ensures
            match r {
                Some(x) => *old(self) == BusDevice::I8042Device(*x) && *final(self)
                    == BusDevice::I8042Device(*final(x)),
                None => !(*old(self) is I8042Device) && *final(self) == *old(self),
            },
    {
        match self {
            Self::I8042Device(x) => Some(x),
            _ => None,
        }
    }

    /// The real time clock, to change it, if the device is one.
    pub fn rtc_device_mut(&mut self) -> (r: Option<&mut RTCDevice>)
        ensures
            match r {
                Some(x) => *old(self) == BusDevice::RTCDevice(*x) && *final(self)
                    == BusDevice::RTCDevice(*final(x)),
                None => !(*old(self) is RTCDevice) && *final(self) == *old(self),
            },
    {
        match self {
            Self::RTCDevice(x) => Some(x),
            _ => None,
        }
    }

    /// The boot timer, to change it, if the device is one.
    pub fn boot_timer_mut(&mut self) -> (r: Option<&mut BootTimer>)
        ensures
            match r {
                Some(x) => *old(self) == BusDevice::BootTimer(*x) && *final(self)
                    == BusDevice::BootTimer(*final(x)),
                None => !(*old(self) is BootTimer) && *final(self) == *old(self),
            },
    {
        match self {
            Self::BootTimer(x) => Some(x),
            _ => None,
        }
    }

    /// The registers of a virtio device, to change them, if the device is that.
    pub fn mmio_transport_mut(&mut self) -> (r: Option<&mut MmioTransport>)
        ensures
            match r {
                Some(x) => *old(self) == BusDevice::MmioTransport(*x) && *final(self)
                    == BusDevice::MmioTransport(*final(x)),
                None => !(*old(self) is MmioTransport) && *final(self) == *old(self),
            },
    {
        match self {
            Self::MmioTransport(x) => Some(x),
            _ => None,
        }
    }

    /// The serial port, to change it, if the device is one.
    pub fn serial_mut(&mut self) -> (r: Option<&mut SerialDevice>)
        ensures
            match r {
                Some(x) => *old(self) == BusDevice::Serial(*x) && *final(self) == BusDevice::Serial(
                    *final(x),
                ),
                None => !(*old(self) is Serial) && *final(self) == *old(self),
            },
    {
        match self {
            Self::Serial(x) => Some(x),
            _ => None,
        }
    }

    /// The events that the device waits for: the serial port waits for input, no
    /// other device on the bus waits for anything.
    pub fn init(&self) -> (sources: Vec<crate::event_manager::EventSource>)
        ensures
            sources@ == (if *self is Serial {
                seq![crate::event_manager::EventSource::SerialInput]
            } else {
                Seq::<crate::event_manager::EventSource>::empty()
            }),
    {
        let mut sources: Vec<crate::event_manager::EventSource> = Vec::new();
        match self {
            Self::Serial(_) => {
                sources.push(crate::event_manager::EventSource::SerialInput);
                proof {
                    assert(sources@ =~= seq![crate::event_manager::EventSource::SerialInput]);
                }
            },
            _ => {},
        }
        sources
    }

    /// Answers a guest read at `offset` within the device. No device changes when it
    /// is read.
    pub fn read(&mut self, offset: u64, data: &mut [u8])
        ensures
            final(self)@ == old(self)@,
            final(data)@ == old(self)@.read(offset, old(data)@),
    {
        match self {
            Self::I8042Device(x) => x.bus_read(offset, data),
            Self::RTCDevice(x) => x.bus_read(offset, data),
            Self::BootTimer(x) => x.bus_read(offset, data),
            Self::MmioTransport(x) => x.bus_read(offset, data),
            Self::Serial(x) => x.bus_read(offset, data),
            Self::Dummy(x) => x.bus_read(offset, data),
            Self::Constant(x) => x.bus_read(offset, data),
        }
    }

    /// Takes a guest write at `offset` within the device.
    pub fn write(&mut self, offset: u64, data: &[u8])
        ensures
            final(self)@ == old(self)@.write(offset, data@),
    {
        match self {
            Self::I8042Device(x) => x.bus_write(offset, data),
            Self::RTCDevice(x) => x.bus_write(offset, data),
            Self::BootTimer(x) => x.bus_write(offset, data),
            Self::MmioTransport(x) => x.bus_write(offset, data),
            Self::Serial(x) => x.bus_write(offset, data),
            Self::Dummy(x) => x.bus_write(offset, data),
            Self::Constant(x) => x.bus_write(offset, data),
        }
    }
}

/// The slot of an address at or above the start of the gap for memory mapped I/O.
pub open spec fn spec_slot(addr: u64) -> int {
    (addr - MMIO_MEM_START) / (MMIO_LEN as int)
}

/// True if a device at `range` and one at `other` cannot both be on the bus: they
/// share an address, or they are memory mapped and share a slot.
pub open spec fn spec_conflict(range: BusRange, other: BusRange) -> bool {
    range.spec_overlaps(other) || (range.0 >= MMIO_MEM_START && other.0 >= MMIO_MEM_START
        && spec_slot(range.0) == spec_slot(other.0))
}

/// True if a device at `range` claims `addr`: a port device claims the addresses of
/// its range; a memory mapped device claims the slot of its first address, whole and
/// nothing else, whatever its length.
pub open spec fn spec_claims(range: BusRange, addr: u64) -> bool {
    if addr < MMIO_MEM_START {
        range.spec_contains(addr)
    } else {
        range.0 >= MMIO_MEM_START && spec_slot(range.0) == spec_slot(addr)
    }
}

/// The offset at which a device at `range` sees `addr`: for a port device that of the
/// address within the range, for a memory mapped device that within the slot.
pub open spec fn spec_offset(range: BusRange, addr: u64) -> u64 {
    if addr < MMIO_MEM_START {
        (addr - range.0) as u64
    } else {
        ((addr - MMIO_MEM_START) % (MMIO_LEN as int)) as u64
    }
}

/// The bus as a mathematical value.
pub struct BusView {
    /// The ranges of the port devices, in the order in which they were put on the bus.
    pub pio_locations: Seq<BusRange>,
    /// The port devices, in the same order.
    pub pio_devices: Seq<BusDeviceView>,
    /// The ranges of the memory mapped devices.
    pub mmio_locations: Seq<BusRange>,
    /// The memory mapped devices.
    pub mmio_devices: Seq<BusDeviceView>,
}

/// True if no range is empty or reaches beyond the last address, and no two of them
/// conflict.
pub open spec fn spec_ranges_wf(ranges: Seq<BusRange>) -> bool {
    &&& forall|i: int|
        0 <= i < ranges.len() ==> (#[trigger] ranges[i]).1 > 0 && ranges[i].0 + ranges[i].1 - 1
            <= u64::MAX
    &&& forall|i: int, j: int|
        0 <= i < j < ranges.len() ==> !spec_conflict(#[trigger] ranges[i], #[trigger] ranges[j])
}

/// The first of the first `n` ranges whose device claims `addr`.
pub open spec fn spec_owner(ranges: Seq<BusRange>, addr: u64, n: nat) -> Option<int>
    decreases n,
{
    if n == 0 {
        None
    } else {
        match spec_owner(ranges, addr, (n - 1) as nat) {
            Some(i) => Some(i),
            None => if spec_claims(ranges[n - 1], addr) {
                Some(n - 1)
            } else {
                None
            },
        }
    }
}

/// What `spec_owner` finds is the first range whose device claims the address; and
/// it finds nothing only if no device claims the address.
pub proof fn lemma_owner(ranges: Seq<BusRange>, addr: u64, n: nat)
    requires
        n <= ranges.len(),
    ensures
        match spec_owner(ranges, addr, n) {
            Some(i) => 0 <= i < n && spec_claims(ranges[i], addr) && forall|j: int|
                0 <= j < i ==> !spec_claims(#[trigger] ranges[j], addr),
            None => forall|j: int| 0 <= j < n ==> !spec_claims(#[trigger] ranges[j], addr),
        },
    decreases n,
{
    if n > 0 {
        lemma_owner(ranges, addr, (n - 1) as nat);
    }
}

impl BusView {
    /// True if the bus is in order: each device has its range, port devices lie below
    /// the start of the gap for memory mapped I/O and memory mapped devices at or
    /// above it, and no two devices of an address space conflict.
    pub open spec fn wf(self) -> bool {
        &&& self.pio_locations.len() == self.pio_devices.len()
        &&& self.mmio_locations.len() == self.mmio_devices.len()
        &&& spec_ranges_wf(self.pio_locations)
        &&& spec_ranges_wf(self.mmio_locations)
        &&& forall|i: int|
            0 <= i < self.pio_locations.len() ==> (#[trigger] self.pio_locations[i]).0
                < MMIO_MEM_START
        &&& forall|i: int|
            0 <= i < self.mmio_locations.len() ==> (#[trigger] self.mmio_locations[i]).0
                >= MMIO_MEM_START
    }

    /// The ranges of the address space that `addr` belongs to.
    pub open spec fn locations(self, addr: u64) -> Seq<BusRange> {
        if addr < MMIO_MEM_START {
            self.pio_locations
        } else {
            self.mmio_locations
        }
    }

    /// The devices of the address space that `addr` belongs to.
    pub open spec fn devices(self, addr: u64) -> Seq<BusDeviceView> {
        if addr < MMIO_MEM_START {
            self.pio_devices
        } else {
            self.mmio_devices
        }
    }

    /// The place, in its address space, of the device that owns `addr`: of the port
    /// device whose range holds the address, or of the memory mapped device that sits
    /// in the slot of the address.
    pub open spec fn owner(self, addr: u64) -> Option<int> {
        spec_owner(self.locations(addr), addr, self.locations(addr).len())
    }

    /// True if a device can be put at `len` addresses from `base`: the range is not
    /// empty, does not reach beyond the last address, and conflicts with no device of
    /// its address space.
    pub open spec fn can_insert(self, base: u64, len: u64) -> bool {
        &&& len > 0
        &&& base + len - 1 <= u64::MAX
        &&& forall|i: int|
            0 <= i < self.locations(base).len() ==> !spec_conflict(
                #[trigger] self.locations(base)[i],
                BusRange(base, len),
            )
    }

    /// The bus with a device put at `len` addresses from `base`.
    pub open spec fn insert(self, device: BusDeviceView, base: u64, len: u64) -> BusView {
        if base < MMIO_MEM_START {
            BusView {
                pio_locations: self.pio_locations.push(BusRange(base, len)),
                pio_devices: self.pio_devices.push(device),
                ..self
            }
        } else {
            BusView {
                mmio_locations: self.mmio_locations.push(BusRange(base, len)),
                mmio_devices: self.mmio_devices.push(device),
                ..self
            }
        }
    }

    /// The bus with the device at place `i` of the address space of `addr` replaced.
    pub open spec fn with_device(self, addr: u64, i: int, device: BusDeviceView) -> BusView {
        if addr < MMIO_MEM_START {
            BusView { pio_devices: self.pio_devices.update(i, device), ..self }
        } else {
            BusView { mmio_devices: self.mmio_devices.update(i, device), ..self }
        }
    }

    /// The bus after a write of `data` at `addr`: the device that owns the address
    /// takes the write at the offset of the address within its range or its slot; if
    /// no device owns it, nothing changes.
    pub open spec fn write(self, addr: u64, data: Seq<u8>) -> BusView {
        match self.owner(addr) {
            Some(i) => self.with_device(
                addr,
                i,
                self.devices(addr)[i].write(spec_offset(self.locations(addr)[i], addr), data),
            ),
            None => self,
        }
    }

    /// What a read at `addr` leaves in the buffer: what the device that owns the
    /// address reads at the offset of the address within its range or its slot; if no
    /// device owns it, the buffer as it was.
    pub open spec fn read(self, addr: u64, data: Seq<u8>) -> Seq<u8> {
        match self.owner(addr) {
            Some(i) => self.devices(addr)[i].read(spec_offset(self.locations(addr)[i], addr), data),
            None => data,
        }
    }
}

/// The views of the devices of a list.
pub open spec fn spec_devices_view(devices: Seq<BusDevice>) -> Seq<BusDeviceView> {
    Seq::new(devices.len(), |i: int| devices[i]@)
}

/// Routes reads and writes to the devices of an address space. The bus owns its
/// devices: a copy of the bus has copies of them.
#[derive(Clone, Debug)]
pub struct Bus {
    pio_locations: Vec<BusRange>,
    pio_devices: Vec<BusDevice>,
    mmio_locations: Vec<BusRange>,
    mmio_devices: Vec<BusDevice>,
}

impl View for Bus {
    type V = BusView;

    closed spec fn view(&self) -> BusView {
        BusView {
            pio_locations: self.pio_locations@,
            pio_devices: spec_devices_view(self.pio_devices@),
            mmio_locations: self.mmio_locations@,
            mmio_devices: spec_devices_view(self.mmio_devices@),
        }
    }
}

/// Says whether a device at `range` claims `addr`.
fn claims(range: &BusRange, addr: u64) -> (b: bool)
    ensures
        b == spec_claims(*range, addr),
{
    if addr < MMIO_MEM_START {
        range.contains(addr)
    } else {
        range.0 >= MMIO_MEM_START && (range.0 - MMIO_MEM_START) / MMIO_LEN == (addr
            - MMIO_MEM_START) / MMIO_LEN
    }
}

/// Finds the first range whose device claims `addr`.
fn find_owner(ranges: &Vec<BusRange>, addr: u64) -> (r: Option<usize>)
    ensures
        match r {
            Some(i) => spec_owner(ranges@, addr, ranges@.len()) == Some(i as int) && i
                < ranges@.len() && spec_claims(ranges@[i as int], addr),
            None => spec_owner(ranges@, addr, ranges@.len()) is None,
        },
{
    let mut i: usize = 0;
    while i < ranges.len()
        invariant
            i <= ranges@.len(),
            spec_owner(ranges@, addr, i as nat) is None,
        decreases ranges@.len() - i,
    {
        if claims(&ranges[i], addr) {
            proof {
                lemma_owner_stays(ranges@, addr, (i + 1) as nat, ranges@.len());
            }
            return Some(i);
        }
        i = i + 1;
    }
    None
}

/// Once a device of the first `n` ranges claims `addr`, the first that does stays the
/// answer for every longer prefix.
pub proof fn lemma_owner_stays(ranges: Seq<BusRange>, addr: u64, n: nat, m: nat)
    requires
        n <= m,
    ensures
        spec_owner(ranges, addr, n) is Some ==> spec_owner(ranges, addr, m) == spec_owner(
            ranges,
            addr,
            n,
        ),
    decreases m,
{
    if n < m {
        lemma_owner_stays(ranges, addr, n, (m - 1) as nat);
    }
}

/// Says whether `range` conflicts with one of the ranges.
fn conflicts(ranges: &Vec<BusRange>, range: &BusRange) -> (b: bool)
    requires
        range.1 > 0,
    ensures
        b == exists|i: int| 0 <= i < ranges@.len() && spec_conflict(#[trigger] ranges@[i], *range),
{
    let mut i: usize = 0;
    while i < ranges.len()
        invariant
            i <= ranges@.len(),
            forall|k: int| 0 <= k < i ==> !spec_conflict(#[trigger] ranges@[k], *range),
        decreases ranges@.len() - i,
    {
        let other = ranges[i];
        let same_slot = range.0 >= MMIO_MEM_START && other.0 >= MMIO_MEM_START && (range.0
            - MMIO_MEM_START) / MMIO_LEN == (other.0 - MMIO_MEM_START) / MMIO_LEN;
        if other.overlaps(range) || same_slot {
            return true;
        }
        i = i + 1;
    }
    false
}

impl Bus {
    /// A bus without devices.
    pub fn new() -> (bus: Bus)
        ensures
            bus@.wf(),
            bus@.pio_locations.len() == 0,
            bus@.mmio_locations.len() == 0,
    {
        Bus {
            pio_locations: Vec::new(),
            pio_devices: Vec::new(),
            mmio_locations: Vec::new(),
            mmio_devices: Vec::new(),
        }
    }

    /// The number of memory mapped devices on the bus.
    pub fn len(&self) -> (n: usize)
        ensures
            n == self@.mmio_locations.len(),
    {
        self.mmio_locations.len()
    }

    /// Finds the device that owns `addr`, and the offset of `addr` within its range
    /// or, for a memory mapped device, within its slot.
    pub fn get_device(&self, addr: u64) -> (r: Option<(u64, &BusDevice)>)
        requires
            self@.wf(),
        ensures
            match r {
                Some((offset, device)) => self@.owner(addr) is Some && offset == spec_offset(
                    self@.locations(addr)[self@.owner(addr)->Some_0],
                    addr,
                ) && device@ == self@.devices(addr)[self@.owner(addr)->Some_0],
                None => self@.owner(addr) is None,
            },
    {
        if addr < MMIO_MEM_START {
            match find_owner(&self.pio_locations, addr) {
                Some(i) => Some((addr - self.pio_locations[i].0, &self.pio_devices[i])),
                None => None,
            }
        } else {
            match find_owner(&self.mmio_locations, addr) {
                Some(i) => Some(((addr - MMIO_MEM_START) % MMIO_LEN, &self.mmio_devices[i])),
                None => None,
            }
        }
    }

    /// Puts a device at `len` addresses from `base`: among the ports if `base` lies
    /// below the start of the gap for memory mapped I/O, else in the slot of `base`.
    ///
    /// This fails with `Overlap`, and leaves the bus as it was, if the range is empty
    /// or reaches beyond the last address, if it shares an address with a device of
    /// its address space, or if it is memory mapped and its slot is taken.
    pub fn insert(&mut self, device: BusDevice, base: u64, len: u64) -> (r: Result<(), BusError>)
        requires
            old(self)@.wf(),
        ensures
            final(self)@.wf(),
            old(self)@.can_insert(base, len) ==> r is Ok && final(self)@ == old(self)@.insert(
                device@,
                base,
                len,
            ),
            !old(self)@.can_insert(base, len) ==> r == Err::<(), BusError>(BusError::Overlap)
                && final(self)@ == old(self)@,
    {
        if len == 0 || base > u64::MAX - (len - 1) {
            return Err(BusError::Overlap);
        }
        let range = BusRange(base, len);
        if base < MMIO_MEM_START {
            if conflicts(&self.pio_locations, &range) {
                proof {
                    let i = choose|i: int|
                        0 <= i < self.pio_locations@.len() && spec_conflict(
                            #[trigger] self.pio_locations@[i],
                            range,
                        );
                    assert(spec_conflict(old(self)@.locations(base)[i], BusRange(base, len)));
                }
                return Err(BusError::Overlap);
            }
            self.pio_locations.push(range);
            self.pio_devices.push(device);
            proof {
                assert(self@.pio_devices =~= old(self)@.pio_devices.push(device@));
                assert(self@.mmio_devices =~= old(self)@.mmio_devices);
            }
        } else {
            if conflicts(&self.mmio_locations, &range) {
                proof {
                    let i = choose|i: int|
                        0 <= i < self.mmio_locations@.len() && spec_conflict(
                            #[trigger] self.mmio_locations@[i],
                            range,
                        );
                    assert(spec_conflict(old(self)@.locations(base)[i], BusRange(base, len)));
                }
                return Err(BusError::Overlap);
            }
            self.mmio_locations.push(range);
            self.mmio_devices.push(device);
            proof {
                assert(self@.mmio_devices =~= old(self)@.mmio_devices.push(device@));
                assert(self@.pio_devices =~= old(self)@.pio_devices);
            }
        }
        Ok(())
    }

    /// Reads from the device that owns `addr` into `data`: the port device whose
    /// range holds the address, or the memory mapped device in the slot of the
    /// address. Says whether there is such a device; if there is none, `data` is left
    /// as it was. The bus does not change.
    pub fn read(&mut self, addr: u64, data: &mut [u8]) -> (found: bool)
        requires
            old(self)@.wf(),
        ensures
            final(self)@ == old(self)@,
            found == (old(self)@.owner(addr) is Some),
            final(data)@ == old(self)@.read(addr, old(data)@),
    {
        if addr < MMIO_MEM_START {
            match find_owner(&self.pio_locations, addr) {
                Some(i) => {
                    let offset = addr - self.pio_locations[i].0;
                    self.pio_devices[i].read(offset, data);
                    proof {
                        assert(self@.pio_devices =~= old(self)@.pio_devices);
                    }
                    true
                },
                None => false,
            }
        } else {
            match find_owner(&self.mmio_locations, addr) {
                Some(i) => {
                    let offset = (addr - MMIO_MEM_START) % MMIO_LEN;
                    self.mmio_devices[i].read(offset, data);
                    proof {
                        assert(self@.mmio_devices =~= old(self)@.mmio_devices);
                    }
                    true
                },
                None => false,
            }
        }
    }

    /// Writes `data` to the device that owns `addr`: the port device whose range
    /// holds the address, or the memory mapped device in the slot of the address.
    /// Says whether there is such a device; if there is none, the write is dropped
    /// and nothing changes.
    pub fn write(&mut self, addr: u64, data: &[u8]) -> (found: bool)
        requires
            old(self)@.wf(),
        ensures
            final(self)@.wf(),
            found == (old(self)@.owner(addr) is Some),
            final(self)@ == old(self)@.write(addr, data@),
    {
        if addr < MMIO_MEM_START {
            match find_owner(&self.pio_locations, addr) {
                Some(i) => {
                    let offset = addr - self.pio_locations[i].0;
                    self.pio_devices[i].write(offset, data);
                    proof {
                        assert(self@.pio_devices =~= old(self)@.write(addr, data@).pio_devices);
                        assert(self@.mmio_devices =~= old(self)@.mmio_devices);
                    }
                    true
                },
                None => false,
            }
        } else {
            match find_owner(&self.mmio_locations, addr) {
                Some(i) => {
                    let offset = (addr - MMIO_MEM_START) % MMIO_LEN;
                    self.mmio_devices[i].write(offset, data);
                    proof {
                        assert(self@.mmio_devices =~= old(self)@.write(addr, data@).mmio_devices);
                        assert(self@.pio_devices =~= old(self)@.pio_devices);
                    }
                    true
                },
                None => false,
            }
        }
    }
}

/// On a bus that is in order, no two devices of one address space share an address,
/// so that at most one device owns an address.
pub proof fn lemma_bus_ranges_disjoint(bus: BusView, addr: u64, i: int, j: int)
    requires
        bus.wf(),
        0 <= i < bus.locations(addr).len(),
        0 <= j < bus.locations(addr).len(),
        i != j,
    ensures
        !bus.locations(addr)[i].spec_overlaps(bus.locations(addr)[j]),
        !(bus.locations(addr)[i].spec_contains(addr) && bus.locations(addr)[j].spec_contains(addr)),
        !(spec_claims(bus.locations(addr)[i], addr) && spec_claims(bus.locations(addr)[j], addr)),
{
    if i < j {
        assert(!spec_conflict(bus.locations(addr)[i], bus.locations(addr)[j]));
    } else {
        assert(!spec_conflict(bus.locations(addr)[j], bus.locations(addr)[i]));
    }
}

/// A range that `insert` accepts shares no address with a range that it accepted
/// before into the same address space.
pub proof fn lemma_insert_keeps_disjoint(bus: BusView, device: BusDeviceView, base: u64, len: u64)
    requires
        bus.wf(),
        bus.can_insert(base, len),
    ensures
        bus.insert(device, base, len).wf(),
        forall|i: int|
            0 <= i < bus.locations(base).len() ==> !(#[trigger] bus.locations(base)[i]).spec_overlaps(
                BusRange(base, len),
            ),
{
    let after = bus.insert(device, base, len);
    let ranges = after.locations(base);
    assert forall|i: int, j: int| 0 <= i < j < ranges.len() implies !spec_conflict(
        #[trigger] ranges[i],
        #[trigger] ranges[j],
    ) by {
        if j < ranges.len() - 1 {
            assert(ranges[i] == bus.locations(base)[i]);
            assert(ranges[j] == bus.locations(base)[j]);
        } else {
            assert(ranges[i] == bus.locations(base)[i]);
        }
    }
}

/// A memory mapped access is a hit exactly if a device sits in the slot of the
/// address, and the device that takes it is that one.
pub proof fn lemma_mmio_owner_by_slot(bus: BusView, addr: u64)
    requires
        bus.wf(),
        addr >= MMIO_MEM_START,
    ensures
        bus.owner(addr) is Some <==> exists|i: int|
            0 <= i < bus.mmio_locations.len() && spec_slot((#[trigger] bus.mmio_locations[i]).0)
                == spec_slot(addr),
        bus.owner(addr) matches Some(i) ==> 0 <= i < bus.mmio_locations.len() && spec_slot(
            bus.mmio_locations[i].0,
        ) == spec_slot(addr),
{
    lemma_owner(bus.mmio_locations, addr, bus.mmio_locations.len());
    if bus.owner(addr) is None {
        assert forall|i: int| 0 <= i < bus.mmio_locations.len() implies spec_slot(
            (#[trigger] bus.mmio_locations[i]).0,
        ) != spec_slot(addr) by {
            assert(!spec_claims(bus.mmio_locations[i], addr));
        }
    }
}

} // verus!
