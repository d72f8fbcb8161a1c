use kernel_core::KernelError;
use kernel_core::pci::{
    ConfigAccess, DeviceRegistry, SimulatedConfigSpace, make_address, read_bar, read_class_code,
    read_vendor_id_from_device, scan_all_bus,
};
use kernel_core::usb::is_xhci;

/// Installs a function: vendor/device identifiers, class code bytes,
/// and header type.
fn put_function(
    c: &mut SimulatedConfigSpace,
    bus: u8,
    device: u8,
    function: u8,
    vendor_id: u16,
    device_id: u16,
    class: (u8, u8, u8),
    header_type: u8,
) {
    let id = ((device_id as u32) << 16) | vendor_id as u32;
    c.write(make_address(bus, device, function, 0x00), id);
    let class_reg =
        ((class.0 as u32) << 24) | ((class.1 as u32) << 16) | ((class.2 as u32) << 8);
    c.write(make_address(bus, device, function, 0x08), class_reg);
    c.write(make_address(bus, device, function, 0x0c), (header_type as u32) << 16);
}

#[test]
fn make_address_matches_the_documented_layout() {
    assert_eq!(
        make_address(1, 2, 3, 0x20),
        0x8000_0000u32 | (1 << 16) | (2 << 11) | (3 << 8) | 0x20
    );
    assert_eq!(make_address(1, 2, 3, 0x20), 0x8001_1320);
    assert_eq!(make_address(0xff, 31, 7, 0xfc), 0x80ff_fffc);
}

#[test]
fn make_address_masks_register_to_multiple_of_four() {
    assert_eq!(make_address(0, 0, 0, 0x21), make_address(0, 0, 0, 0x20));
    assert_eq!(make_address(0, 0, 0, 0x23), make_address(0, 0, 0, 0x20));
    assert_eq!(make_address(5, 9, 1, 0xff) & 3, 0);
}

#[test]
fn scan_finds_the_single_simulated_device() {
    let mut c = SimulatedConfigSpace::new();
    put_function(&mut c, 0, 0, 0, 0x1234, 0x5678, (0x0c, 0x03, 0x30), 0x00);

    let mut registry = DeviceRegistry::new();
    assert!(scan_all_bus(&c, &mut registry).is_ok());
    assert_eq!(registry.num_devices(), 1);

    let dev = registry.find_by_class_code(0x0c, 0x03, 0x30).expect("device expected");
    assert_eq!((dev.bus, dev.device, dev.function), (0, 0, 0));
    assert_eq!(dev.class_code, (0x0c, 0x03, 0x30));
    assert!(is_xhci(&dev));
    assert_eq!(read_vendor_id_from_device(&c, &dev), 0x1234);
    assert_eq!(read_class_code(&c, 0, 0, 0), (0x0c, 0x03, 0x30));

    // Exactly one device carries that class code.
    let mut matches = 0;
    for i in 0..registry.num_devices() {
        if registry.get(i).class_code == (0x0c, 0x03, 0x30) {
            matches += 1;
        }
    }
    assert_eq!(matches, 1);

    // Another class code is absent.
    assert!(registry.find_by_class_code(0x06, 0x04, 0x00).is_none());
}

#[test]
fn read_bar_masks_the_low_type_bits() {
    let mut c = SimulatedConfigSpace::new();
    put_function(&mut c, 0, 0, 0, 0x1234, 0x5678, (0x0c, 0x03, 0x30), 0x00);
    // A 32-bit BAR: the next slot is never consulted (it still reads
    // as the all-ones an absent register answers) and the low type
    // bits come off.
    c.write(make_address(0, 0, 0, 0x10), 0xf000_0004);

    let mut registry = DeviceRegistry::new();
    assert!(scan_all_bus(&c, &mut registry).is_ok());
    let dev = registry.find_by_class_code(0x0c, 0x03, 0x30).unwrap();

    assert_eq!(read_bar(&c, &dev, 0), Ok(0xf000_0000));
}

#[test]
fn read_bar_assembles_sixty_four_bit_bars_and_checks_the_index() {
    let mut c = SimulatedConfigSpace::new();
    put_function(&mut c, 0, 0, 0, 0x8086, 0x0000, (0x06, 0x00, 0x00), 0x00);
    put_function(&mut c, 0, 3, 0, 0xabcd, 0x0001, (0x01, 0x02, 0x03), 0x00);
    let dev = {
        let mut registry = DeviceRegistry::new();
        assert!(scan_all_bus(&c, &mut registry).is_ok());
        assert_eq!(registry.num_devices(), 2);
        registry.get(1)
    };

    // 32-bit memory BAR: bit 1 clear, low type bits masked off.
    c.write(make_address(0, 3, 0, 0x10), 0x1000_0008);
    assert_eq!(read_bar(&c, &dev, 0), Ok(0x1000_0000));

    // 64-bit BAR (bit 1 set) in slots 1 and 2: the pair is returned
    // exactly as read, nothing masked.
    c.write(make_address(0, 3, 0, 0x14), 0x2000_0006);
    c.write(make_address(0, 3, 0, 0x18), 0x0000_00ab);
    assert_eq!(read_bar(&c, &dev, 1), Ok(0x0000_00ab_2000_0006));

    assert_eq!(read_bar(&c, &dev, 6), Err(KernelError::BarIndexOutOfRange));
    // A 64-bit BAR cannot start in the last slot.
    c.write(make_address(0, 3, 0, 0x24), 0x0000_0002);
    assert_eq!(read_bar(&c, &dev, 5), Err(KernelError::BarIndexOutOfRange));
}

#[test]
fn bridge_tree_is_visited_once_per_function() {
    let mut c = SimulatedConfigSpace::new();
    // Host bridge, single function: the scan covers bus 0 only.
    put_function(&mut c, 0, 0, 0, 0x8086, 0x0001, (0x06, 0x00, 0x00), 0x00);
    // A PCI-to-PCI bridge leading to bus 1.
    put_function(&mut c, 0, 1, 0, 0x8086, 0x0002, (0x06, 0x04, 0x00), 0x00);
    c.write(make_address(0, 1, 0, 0x18), 0x0000_0100);
    // Bus 1: one plain device and one multi-function device.
    put_function(&mut c, 1, 2, 0, 0x1af4, 0x0003, (0x02, 0x00, 0x00), 0x00);
    put_function(&mut c, 1, 3, 0, 0x1af4, 0x0004, (0x0c, 0x03, 0x30), 0x80);
    put_function(&mut c, 1, 3, 1, 0x1af4, 0x0005, (0x0c, 0x03, 0x20), 0x80);
    // Deeper bridge: bus 1 device 4 leads to bus 2.
    put_function(&mut c, 1, 4, 0, 0x8086, 0x0006, (0x06, 0x04, 0x00), 0x00);
    c.write(make_address(1, 4, 0, 0x18), 0x0000_0200);
    put_function(&mut c, 2, 0, 0, 0x10de, 0x0007, (0x03, 0x00, 0x00), 0x00);

    let mut registry = DeviceRegistry::new();
    assert!(scan_all_bus(&c, &mut registry).is_ok());
    assert_eq!(registry.num_devices(), 7);

    // Depth-first order: each function exactly once, bridges descended
    // into at the point of discovery.
    let expected = [
        (0, 0, 0),
        (0, 1, 0),
        (1, 2, 0),
        (1, 3, 0),
        (1, 3, 1),
        (1, 4, 0),
        (2, 0, 0),
    ];
    for (i, want) in expected.iter().enumerate() {
        let d = registry.get(i);
        assert_eq!((d.bus, d.device, d.function), *want);
    }
}

#[test]
fn scan_reports_a_full_registry() {
    let mut c = SimulatedConfigSpace::new();
    put_function(&mut c, 0, 0, 0, 0x8086, 0x0001, (0x06, 0x00, 0x00), 0x00);
    for d in 1..32u8 {
        put_function(&mut c, 0, d, 0, 0x1111, d as u16, (0x02, 0x00, 0x00), 0x00);
    }
    // 32 single-function devices fit exactly.
    let mut registry = DeviceRegistry::new();
    assert!(scan_all_bus(&c, &mut registry).is_ok());
    assert_eq!(registry.num_devices(), 32);

    // A 33rd function tips the registry over.
    put_function(&mut c, 0, 31, 0, 0x1111, 0x001f, (0x02, 0x00, 0x00), 0x80);
    put_function(&mut c, 0, 31, 1, 0x1111, 0x0020, (0x02, 0x00, 0x00), 0x80);
    let mut registry = DeviceRegistry::new();
    assert_eq!(scan_all_bus(&c, &mut registry), Err(KernelError::RegistryFull));
    assert_eq!(KernelError::RegistryFull.message(), "full");
}

#[test]
fn multi_function_host_bridge_scans_one_bus_per_function() {
    let mut c = SimulatedConfigSpace::new();
    // Host bridge with the multi-function bit: present functions 0..8
    // of (0,0) each select the bus of their own number, so bus 0 is
    // scanned for function 0 and bus 1 for function 1.
    put_function(&mut c, 0, 0, 0, 0x8086, 0x0001, (0x06, 0x00, 0x00), 0x80);
    put_function(&mut c, 0, 0, 1, 0x8086, 0x0002, (0x06, 0x00, 0x00), 0x00);
    // Bus 1 (selected by function 1) has one device.
    put_function(&mut c, 1, 5, 0, 0x1af4, 0x0003, (0x02, 0x00, 0x00), 0x00);

    let mut registry = DeviceRegistry::new();
    assert!(scan_all_bus(&c, &mut registry).is_ok());
    // Bus 0 holds the two host-bridge functions themselves; bus 1 the
    // plain device.
    assert_eq!(registry.num_devices(), 3);
    let expected = [(0, 0, 0), (0, 0, 1), (1, 5, 0)];
    for (i, want) in expected.iter().enumerate() {
        let d = registry.get(i);
        assert_eq!((d.bus, d.device, d.function), *want);
    }
}

#[test]
fn bridge_chain_eight_deep_is_fully_visited() {
    let mut c = SimulatedConfigSpace::new();
    put_function(&mut c, 0, 0, 0, 0x8086, 0x0001, (0x06, 0x00, 0x00), 0x00);
    // A chain of bridges: bus n, device 1 leads to bus n + 1, for
    // eight levels.
    for n in 0..8u8 {
        put_function(&mut c, n, 1, 0, 0x8086, 0x0100 + n as u16, (0x06, 0x04, 0x00), 0x00);
        c.write(make_address(n, 1, 0, 0x18), ((n as u32) + 1) << 8);
    }
    // A leaf device at the deepest bus.
    put_function(&mut c, 8, 9, 0, 0x1af4, 0x0042, (0x02, 0x00, 0x00), 0x00);

    let mut registry = DeviceRegistry::new();
    assert!(scan_all_bus(&c, &mut registry).is_ok());
    // Host bridge, eight bridges, one leaf: each exactly once.
    assert_eq!(registry.num_devices(), 10);
    for n in 0..8usize {
        let d = registry.get(1 + n);
        assert_eq!((d.bus, d.device, d.function), (n as u8, 1, 0));
        assert_eq!(d.class_code, (0x06, 0x04, 0x00));
    }
    let leaf = registry.get(9);
    assert_eq!((leaf.bus, leaf.device, leaf.function), (8, 9, 0));
}
