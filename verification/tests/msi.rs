use kernel_core::KernelError;
use kernel_core::msi::{
    MSICapability, MSICapabilityHeader, MSIDeliveryMode, MSITriggerMode,
    configure_msi_fixed_destication, read_msi_capability, write_msi_capability,
};
use kernel_core::pci::{ConfigAccess, Device, SimulatedConfigSpace, make_address};

fn device_at(bus: u8, device: u8, function: u8) -> Device {
    Device { bus, device, function, header_type: 0, class_code: (0x0c, 0x03, 0x30) }
}

#[test]
fn capability_block_round_trips_with_all_optional_fields() {
    let mut c = SimulatedConfigSpace::new();
    let dev = device_at(0, 4, 0);
    // Header: identifier 0x05, 64-bit addressing (bit 23) and
    // per-vector masking (bit 24).
    let cap = MSICapability {
        header: MSICapabilityHeader(0x0180_0005),
        msg_addr: 0xfee0_1000,
        msg_upper_addr: 0x0000_00aa,
        msg_data: 0x0000_c045,
        mask_bits: 0x0000_000f,
        pending_bits: 0x0000_0003,
    };
    write_msi_capability(&mut c, &dev, 0x50, &cap);
    let read_back = read_msi_capability(&c, &dev, 0x50);
    assert_eq!(read_back, cap);
}

#[test]
fn capability_block_round_trips_without_optional_fields() {
    let mut c = SimulatedConfigSpace::new();
    let dev = device_at(2, 7, 1);
    // Plain header: neither 64-bit addressing nor masking, so the
    // optional words stay zero on both sides.
    let cap = MSICapability {
        header: MSICapabilityHeader(0x0000_0005),
        msg_addr: 0xfee0_0000,
        msg_upper_addr: 0,
        msg_data: 0x0000_0040,
        mask_bits: 0,
        pending_bits: 0,
    };
    write_msi_capability(&mut c, &dev, 0x60, &cap);
    let read_back = read_msi_capability(&c, &dev, 0x60);
    assert_eq!(read_back, cap);
    // The data word sits right after the address word here.
    assert_eq!(c.read(make_address(2, 7, 1, 0x68)), 0x0000_0040);
}

#[test]
fn configure_msi_writes_address_data_and_enable() {
    let mut c = SimulatedConfigSpace::new();
    let dev = device_at(0, 4, 0);
    // Capability pointer 0x34 -> one MSI capability at 0x50 with a
    // multi-message capability of 2 (bits 17..20), no optional words.
    c.write(make_address(0, 4, 0, 0x34), 0x0000_0050);
    c.write(make_address(0, 4, 0, 0x50), 0x0004_0005);

    let r = configure_msi_fixed_destication(
        &mut c,
        &dev,
        0xab,
        MSITriggerMode::Level,
        MSIDeliveryMode::Fixed(),
        0x40,
        0,
    );
    assert!(r.is_ok());

    // Address: fixed window with the APIC identifier in bits 12..20.
    assert_eq!(c.read(make_address(0, 4, 0, 0x54)), 0xfee0_0000 | (0xab << 12));
    // Data: level-trigger bits, delivery mode 0, vector 0x40.
    assert_eq!(c.read(make_address(0, 4, 0, 0x58)), 0xc000 | 0x40);
    // Header: enable set (bit 16) and the vector-count field
    // rewritten to the clamped request (0).
    assert_eq!(c.read(make_address(0, 4, 0, 0x50)), 0x0001_0005);
}

#[test]
fn configure_msi_clamps_the_vector_count_to_the_device() {
    let mut c = SimulatedConfigSpace::new();
    let dev = device_at(0, 4, 0);
    c.write(make_address(0, 4, 0, 0x34), 0x0000_0050);
    // Multi-message capability 2: the device supports four vectors.
    c.write(make_address(0, 4, 0, 0x50), 0x0004_0005);

    let r = configure_msi_fixed_destication(
        &mut c,
        &dev,
        0,
        MSITriggerMode::Edge,
        MSIDeliveryMode::Fixed(),
        0x41,
        5,
    );
    assert!(r.is_ok());
    let header = c.read(make_address(0, 4, 0, 0x50));
    // Requested 2^5 vectors, device supports 2^2: enable 2^2.
    assert_eq!((header >> 17) & 7, 2);
    assert_eq!(header & 0x0001_0000, 0x0001_0000);
    // Edge-triggered: no level bits in the data word.
    assert_eq!(c.read(make_address(0, 4, 0, 0x58)), 0x41);
}

#[test]
fn configure_msi_walks_the_capability_chain() {
    let mut c = SimulatedConfigSpace::new();
    let dev = device_at(1, 2, 3);
    // 0x34 -> 0x40 (vendor capability 0x09) -> 0x70 (MSI).
    c.write(make_address(1, 2, 3, 0x34), 0x0000_0040);
    c.write(make_address(1, 2, 3, 0x40), 0x0000_7009);
    c.write(make_address(1, 2, 3, 0x70), 0x0000_0005);

    let r = configure_msi_fixed_destication(
        &mut c,
        &dev,
        1,
        MSITriggerMode::Edge,
        MSIDeliveryMode::LowestPriority(),
        0x33,
        0,
    );
    assert!(r.is_ok());
    assert_eq!(c.read(make_address(1, 2, 3, 0x74)), 0xfee0_0000 | (1 << 12));
    assert_eq!(c.read(make_address(1, 2, 3, 0x78)), (0b001 << 8) | 0x33);
}

#[test]
fn msix_only_devices_are_reported_unimplemented() {
    let mut c = SimulatedConfigSpace::new();
    let dev = device_at(0, 4, 0);
    c.write(make_address(0, 4, 0, 0x34), 0x0000_0050);
    c.write(make_address(0, 4, 0, 0x50), 0x0000_0011);

    let r = configure_msi_fixed_destication(
        &mut c,
        &dev,
        0,
        MSITriggerMode::Edge,
        MSIDeliveryMode::Fixed(),
        0x40,
        0,
    );
    assert_eq!(r, Err(KernelError::MsixUnimplemented));
    assert_eq!(KernelError::MsixUnimplemented.message(), "not implemented.");
}

#[test]
fn devices_without_msi_are_reported() {
    let mut c = SimulatedConfigSpace::new();
    let dev = device_at(0, 4, 0);
    // Empty capability list: the pointer register reads as zero.
    c.write(make_address(0, 4, 0, 0x34), 0);

    let r = configure_msi_fixed_destication(
        &mut c,
        &dev,
        0,
        MSITriggerMode::Edge,
        MSIDeliveryMode::Fixed(),
        0x40,
        0,
    );
    assert_eq!(r, Err(KernelError::NoMsiCapability));
    assert_eq!(KernelError::NoMsiCapability.message(), "no pci msi.");
}

#[test]
fn delivery_modes_carry_their_codes() {
    assert_eq!(MSIDeliveryMode::Fixed().0, 0b000);
    assert_eq!(MSIDeliveryMode::LowestPriority().0, 0b001);
    assert_eq!(MSIDeliveryMode::Smi().0, 0b010);
    assert_eq!(MSIDeliveryMode::Nmi().0, 0b100);
    assert_eq!(MSIDeliveryMode::Init().0, 0b101);
    assert_eq!(MSIDeliveryMode::ExtInt().0, 0b111);
}

#[test]
fn header_accessors_read_the_message_control_bits() {
    let mut h = MSICapabilityHeader(0x0180_0005);
    assert_eq!(h.cap_id(), 0x05);
    assert!(h.addr_64_capable());
    assert!(h.per_vector_mask_capable());
    assert_eq!(h.multi_msg_capable(), 0);
    h.set_multi_msg_enable(3);
    assert_eq!(h.data(), 0x0180_0005 | (3 << 17));
    h.set_msi_enable(true);
    assert_eq!(h.data() & 0x0001_0000, 0x0001_0000);
    h.set_msi_enable(false);
    assert_eq!(h.data() & 0x0001_0000, 0);
}

#[test]
fn unusable_msi_capability_offsets_are_rejected() {
    let mut c = SimulatedConfigSpace::new();
    let dev = device_at(0, 4, 0);
    // The MSI capability claims to sit at an unaligned offset.
    c.write(make_address(0, 4, 0, 0x34), 0x0000_0051);
    c.write(make_address(0, 4, 0, 0x50), 0x0000_0005);

    let r = configure_msi_fixed_destication(
        &mut c,
        &dev,
        0,
        MSITriggerMode::Edge,
        MSIDeliveryMode::Fixed(),
        0x40,
        0,
    );
    assert_eq!(r, Err(KernelError::MalformedCapabilityList));
    assert_eq!(
        KernelError::MalformedCapabilityList.message(),
        "malformed capability list."
    );

    // Same for one too close to the end of configuration space.
    let mut c = SimulatedConfigSpace::new();
    c.write(make_address(0, 4, 0, 0x34), 0x0000_00ec);
    c.write(make_address(0, 4, 0, 0xec), 0x0000_0005);
    let r = configure_msi_fixed_destication(
        &mut c,
        &dev,
        0,
        MSITriggerMode::Edge,
        MSIDeliveryMode::Fixed(),
        0x40,
        0,
    );
    assert_eq!(r, Err(KernelError::MalformedCapabilityList));
}

#[test]
fn a_cyclic_capability_chain_ends_in_no_msi() {
    let mut c = SimulatedConfigSpace::new();
    let dev = device_at(0, 4, 0);
    // A vendor capability pointing back at itself: the bounded walk
    // gives up instead of spinning.
    c.write(make_address(0, 4, 0, 0x34), 0x0000_0050);
    c.write(make_address(0, 4, 0, 0x50), 0x0000_5009);

    let r = configure_msi_fixed_destication(
        &mut c,
        &dev,
        0,
        MSITriggerMode::Edge,
        MSIDeliveryMode::Fixed(),
        0x40,
        0,
    );
    assert_eq!(r, Err(KernelError::NoMsiCapability));
}
