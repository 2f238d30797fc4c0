use vmm::devices::bus::Bus;
use vmm::devices::bus::BusDevice;
use vmm::devices::bus::BusError;
use vmm::devices::bus::ConstantDevice;
use vmm::devices::bus::DummyDevice;
use vmm::devices::bus_range::BusRange;

#[test]
fn bus_insert() {
    let mut bus = Bus::new();
    let dummy = BusDevice::Dummy(DummyDevice);
    // Insert len should not be 0.
    bus.insert(dummy.clone(), 0x10, 0).unwrap_err();
    bus.insert(dummy.clone(), 0x10, 0x10).unwrap();

    let result = bus.insert(dummy.clone(), 0x0f, 0x10);
    // This overlaps the address space of the existing bus device at 0x10.
    assert!(matches!(result, Err(BusError::Overlap)), "{:?}", result);

    // This overlaps the address space of the existing bus device at 0x10.
    bus.insert(dummy.clone(), 0x10, 0x10).unwrap_err();
    // This overlaps the address space of the existing bus device at 0x10.
    bus.insert(dummy.clone(), 0x10, 0x15).unwrap_err();
    // This overlaps the address space of the existing bus device at 0x10.
    bus.insert(dummy.clone(), 0x12, 0x15).unwrap_err();
    // This overlaps the address space of the existing bus device at 0x10.
    bus.insert(dummy.clone(), 0x12, 0x01).unwrap_err();
    // This overlaps the address space of the existing bus device at 0x10.
    bus.insert(dummy.clone(), 0x0, 0x20).unwrap_err();
    bus.insert(dummy.clone(), 0x20, 0x05).unwrap();
    bus.insert(dummy.clone(), 0x25, 0x05).unwrap();
    bus.insert(dummy, 0x0, 0x10).unwrap();
}

#[test]
fn bus_read_write() {
    let mut bus = Bus::new();
    let dummy = BusDevice::Dummy(DummyDevice);
    bus.insert(dummy, 0x10, 0x10).unwrap();
    assert!(bus.read(0x10, &mut [0, 0, 0, 0]));
    assert!(bus.write(0x10, &[0, 0, 0, 0]));
    assert!(bus.read(0x11, &mut [0, 0, 0, 0]));
    assert!(bus.write(0x11, &[0, 0, 0, 0]));
    assert!(bus.read(0x16, &mut [0, 0, 0, 0]));
    assert!(bus.write(0x16, &[0, 0, 0, 0]));
    assert!(!bus.read(0x20, &mut [0, 0, 0, 0]));
    assert!(!bus.write(0x20, &[0, 0, 0, 0]));
    assert!(!bus.read(0x06, &mut [0, 0, 0, 0]));
    assert!(!bus.write(0x06, &[0, 0, 0, 0]));
}

#[test]
fn bus_read_write_values() {
    let mut bus = Bus::new();
    let dummy = BusDevice::Constant(ConstantDevice);
    bus.insert(dummy, 0x10, 0x10).unwrap();

    let mut values = [0, 1, 2, 3];
    assert!(bus.read(0x10, &mut values));
    assert_eq!(values, [0, 1, 2, 3]);
    assert!(bus.write(0x10, &values));
    assert!(bus.read(0x15, &mut values));
    assert_eq!(values, [5, 6, 7, 8]);
    assert!(bus.write(0x15, &values));
}

#[test]
fn busrange_cmp_and_clone() {
    assert_eq!(BusRange(0x10, 2), BusRange(0x10, 3));
    assert_eq!(BusRange(0x10, 2), BusRange(0x10, 2));

    assert!(BusRange(0x10, 2) < BusRange(0x12, 1));
    assert!(BusRange(0x10, 2) < BusRange(0x12, 3));

    let mut bus = Bus::new();
    let mut data = [1, 2, 3, 4];
    bus.insert(BusDevice::Dummy(DummyDevice), 0x10, 0x10).unwrap();
    assert!(bus.write(0x10, &data));
    let mut bus_clone = bus.clone();
    assert!(bus.read(0x10, &mut data));
    assert_eq!(data, [1, 2, 3, 4]);
    assert!(bus_clone.read(0x10, &mut data));
    assert_eq!(data, [1, 2, 3, 4]);
}

#[test]
fn test_display_error() {
    assert_eq!(
        BusError::Overlap.to_string(),
        "New device overlaps with an old device."
    );
}
