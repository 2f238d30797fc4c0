use vmm::devices::bus::Bus;
use vmm::devices::bus::BusDevice;
use vmm::devices::bus::BusError;
use vmm::devices::bus::ConstantDevice;
use vmm::devices::bus::DummyDevice;
use vmm::devices::bus_range::BusRange;
use vmm::devices::legacy::I8042Device;
use vmm::devices::legacy::RTCDevice;
use vmm::devices::legacy::SerialDevice;
use vmm::devices::pseudo::BootTimer;
use vmm::devices::virtio::mmio::MmioTransport;
use vmm::event_manager::EventSource;
use vmm::harness::action_name;
use vmm::harness::artifacts_paths;
use vmm::harness::ActionBody;
use vmm::harness::ActionType;
use vmm::harness::HostArch;

const MMIO_BASE: u64 = (1 << 32) - (768 << 20);

#[test]
fn bus_overlap_scenario() {
    let mut bus = Bus::new();
    assert!(bus.insert(BusDevice::Dummy(DummyDevice), 0x10, 0x10).is_ok());
    assert_eq!(bus.insert(BusDevice::Dummy(DummyDevice), 0x0f, 0x10), Err(BusError::Overlap));
    assert!(bus.insert(BusDevice::Dummy(DummyDevice), 0x20, 0x05).is_ok());
    // A range cannot reach beyond the last address.
    assert_eq!(bus.insert(BusDevice::Dummy(DummyDevice), u64::MAX, 2), Err(BusError::Overlap));
}

#[test]
fn bus_mmio_lookup_goes_by_slot() {
    let mut bus = Bus::new();
    // A device that is longer than its slot has its slot and no more.
    bus.insert(BusDevice::Constant(ConstantDevice), MMIO_BASE, 0x2000).unwrap();
    let mut data = [0xaau8; 2];
    assert!(bus.read(MMIO_BASE + 0x0ffe, &mut data));
    assert_eq!(data, [0xfe, 0xff]);
    let mut data = [0xaau8; 2];
    assert!(!bus.read(MMIO_BASE + 0x1800, &mut data));
    assert_eq!(data, [0xaa; 2]);
    assert!(!bus.write(MMIO_BASE + 0x1800, &data));
    assert!(bus.get_device(MMIO_BASE + 0x1000).is_none());
    // A device that starts inside its slot has the whole slot, and sees the offset
    // within the slot.
    bus.insert(BusDevice::Constant(ConstantDevice), MMIO_BASE + 0x4800, 0x100).unwrap();
    assert!(bus.write(MMIO_BASE + 0x4010, &data));
    assert!(bus.read(MMIO_BASE + 0x4010, &mut data));
    assert_eq!(data, [0x10, 0x11]);
    assert!(bus.read(MMIO_BASE + 0x4900, &mut data));
    assert_eq!(data, [0x00, 0x01]);
    let (offset, device) = bus.get_device(MMIO_BASE + 0x4fff).unwrap();
    assert_eq!(offset, 0xfff);
    assert!(matches!(device, BusDevice::Constant(_)));
    assert!(bus.get_device(MMIO_BASE + 0x5000).is_none());
    assert!(bus.get_device(MMIO_BASE + 0x3fff).is_none());
}

#[test]
fn bus_mmio_slots() {
    let mut bus = Bus::new();
    assert_eq!(bus.len(), 0);
    bus.insert(BusDevice::BootTimer(BootTimer::new()), MMIO_BASE, 0x1000).unwrap();
    bus.insert(BusDevice::Serial(SerialDevice::new()), MMIO_BASE + 0x2000, 0x1000).unwrap();
    assert_eq!(bus.len(), 2);
    // The slot is taken, whatever part of it is asked for.
    assert_eq!(bus.insert(BusDevice::Dummy(DummyDevice), MMIO_BASE, 0x1000), Err(BusError::Overlap));
    assert_eq!(bus.insert(BusDevice::Dummy(DummyDevice), MMIO_BASE + 0x2800, 0x10), Err(BusError::Overlap));
    // A range that reaches into a slot that is taken.
    assert_eq!(bus.insert(BusDevice::Dummy(DummyDevice), MMIO_BASE + 0x1800, 0x1000), Err(BusError::Overlap));
    bus.insert(BusDevice::Dummy(DummyDevice), MMIO_BASE + 0x1000, 0x1000).unwrap();
    // Ports and memory mapped devices do not get in each other's way.
    bus.insert(BusDevice::I8042Device(I8042Device::new()), 0x60, 5).unwrap();
    assert_eq!(bus.len(), 3);

    // An unassigned slot: nothing is read or written.
    let mut data = [0xaau8; 4];
    assert!(!bus.read(MMIO_BASE + 0x3000, &mut data));
    assert_eq!(data, [0xaa; 4]);
    assert!(!bus.write(MMIO_BASE + 0x3000, &data));
    assert!(bus.get_device(MMIO_BASE + 0x3000).is_none());

    // The boot timer gets the magic value.
    assert!(bus.write(MMIO_BASE, &[123]));
    let (offset, device) = bus.get_device(MMIO_BASE + 8).unwrap();
    assert_eq!(offset, 8);
    assert!(device.boot_timer_ref().unwrap().boot_complete);
    // The serial port gets its bytes at the offset within its slot.
    assert!(bus.write(MMIO_BASE + 0x2000, b"h"));
    assert!(bus.write(MMIO_BASE + 0x2000, b"i"));
    assert!(bus.write(MMIO_BASE + 0x2007, &[0x5a]));
    let mut one = [0u8];
    assert!(bus.read(MMIO_BASE + 0x2005, &mut one));
    assert_eq!(one, [0x60]);
    assert!(bus.read(MMIO_BASE + 0x2007, &mut one));
    assert_eq!(one, [0x5a]);
    // The reset line of the keyboard controller.
    assert!(bus.write(0x64, &[0xfe]));
    assert!(bus.get_device(0x60).unwrap().1.i8042_device_ref().unwrap().reset_requested);
    assert!(bus.read(0x64, &mut one));
    assert_eq!(one, [0]);
    assert!(!bus.read(0x65, &mut one));
}

#[test]
fn bus_device_accessors() {
    let mut timer = BusDevice::BootTimer(BootTimer::new());
    assert!(timer.boot_timer_ref().is_some());
    assert!(timer.i8042_device_ref().is_none());
    assert!(timer.rtc_device_ref().is_none());
    assert!(timer.mmio_transport_ref().is_none());
    assert!(timer.serial_ref().is_none());
    assert!(timer.serial_mut().is_none());
    assert!(timer.i8042_device_mut().is_none());
    timer.boot_timer_mut().unwrap().boot_complete = true;
    assert!(timer.boot_timer_ref().unwrap().boot_complete);

    let mut serial = BusDevice::Serial(SerialDevice::new());
    serial.write(0, b"o");
    serial.write(0, b"k");
    serial.write(0, b"xy");
    assert_eq!(serial.serial_mut().unwrap().take_output(), b"ok".to_vec());
    assert!(serial.serial_mut().unwrap().take_output().is_empty());
    assert!(serial.boot_timer_mut().is_none());

    let mut rtc = BusDevice::RTCDevice(RTCDevice::new(1000));
    let mut word = [0u8; 4];
    rtc.read(0, &mut word);
    assert_eq!(u32::from_le_bytes(word), 1000);
    rtc.write(8, &77u32.to_le_bytes());
    assert_eq!(rtc.rtc_device_ref().unwrap().seconds, 77);
    rtc.rtc_device_mut().unwrap().seconds = 5;
    rtc.read(0, &mut word);
    assert_eq!(u32::from_le_bytes(word), 5);
    rtc.read(4, &mut word);
    assert_eq!(u32::from_le_bytes(word), 5);

    let mut i8042 = BusDevice::I8042Device(I8042Device::new());
    i8042.write(4, &[0xfe, 0]);
    i8042.write(0, &[0xfe]);
    assert!(!i8042.i8042_device_ref().unwrap().reset_requested);
    i8042.i8042_device_mut().unwrap().reset_requested = true;
    assert!(i8042.i8042_device_ref().unwrap().reset_requested);

    let mut transport = BusDevice::MmioTransport(MmioTransport::new(2, 0, &[8], Vec::new()));
    transport.read(0, &mut word);
    assert_eq!(u32::from_le_bytes(word), 0x7472_6976);
    transport.write(0x70, &1u32.to_le_bytes());
    assert_eq!(transport.mmio_transport_ref().unwrap().device_status(), 1);
    assert!(transport.mmio_transport_mut().is_some());

    let mut timer_device = BootTimer::new();
    timer_device.bus_write(1, &[123]);
    timer_device.bus_write(0, &[]);
    timer_device.bus_write(0, &[122]);
    assert!(!timer_device.boot_complete);
    timer_device.bus_write(0, &[123, 9]);
    assert!(timer_device.boot_complete);
}

#[test]
fn bus_range_checks() {
    let r = BusRange(0x10, 0x10);
    assert!(r.contains(0x10));
    assert!(r.contains(0x1f));
    assert!(!r.contains(0x20));
    assert!(!r.contains(0x0f));
    assert!(r.overlaps(&BusRange(0x1f, 1)));
    assert!(!r.overlaps(&BusRange(0x20, 1)));
    assert!(!r.overlaps(&BusRange(0x18, 0)));
    assert!(r.overlaps(&BusRange(0, u64::MAX)));
    assert!(BusRange(u64::MAX, 1).contains(u64::MAX));
    assert!(BusRange(0x10, 0) == BusRange(0x10, 9));
    assert!(BusRange(0x11, 0) > BusRange(0x10, 9));
}

#[test]
fn bus_device_events() {
    assert_eq!(BusDevice::Serial(SerialDevice::new()).init(), vec![EventSource::SerialInput]);
    assert!(BusDevice::Dummy(DummyDevice).init().is_empty());
    assert!(BusDevice::BootTimer(BootTimer::new()).init().is_empty());
}

#[test]
fn harness_names() {
    let paths = artifacts_paths(HostArch::X86_64);
    assert_eq!(paths.0, "../../build/img/x86_64/vmlinux-5.10.210");
    assert_eq!(paths.3, "../../build/img/x86_64/ubuntu-22.04.id_rsa");
    let paths = artifacts_paths(HostArch::Aarch64);
    assert_eq!(paths.1, "../../build/img/aarch64/vmlinux-6.1.82");
    assert_eq!(paths.2, "../../build/img/aarch64/ubuntu-22.04.ext4");
    let body = ActionBody { action_type: ActionType::InstanceStart };
    assert_eq!(action_name(body.action_type), "InstanceStart");
    assert_eq!(action_name(ActionType::FlushMetrics), "FlushMetrics");
    assert_eq!(action_name(ActionType::SendCtrlAltDel), "SendCtrlAltDel");
}
