use kernel_core::segment::{SegmentDescriptor, setup_segments};

#[test]
fn boot_gdt_has_the_classic_three_entries() {
    let gdt = setup_segments();
    assert_eq!(gdt.len(), 3);
    assert_eq!(gdt.entry(0).0, 0);
    // Present, long-mode, execute/read code segment: base 0, limit
    // 0xfffff, 4 KiB granularity.
    assert_eq!(gdt.entry(1).0, 0x00af_9a00_0000_ffff);
    // Present, 32-bit-default read/write data segment.
    assert_eq!(gdt.entry(2).0, 0x00cf_9200_0000_ffff);
}

#[test]
fn gdt_param_has_the_table_size_less_one() {
    let gdt = setup_segments();
    let param = gdt.param(0x5000);
    assert_eq!(param.limit, 23);
    assert_eq!(param.base, 0x5000);
}

#[test]
fn setters_place_their_bits() {
    let mut d = SegmentDescriptor::new(0);
    d.set_limit_low(0xabcd);
    assert_eq!(d.0, 0xabcd);
    d.set_base_low(0x1234);
    assert_eq!(d.0, 0x1234_abcd);
    d.set_base_middle(0x56);
    assert_eq!(d.0, 0x0056_1234_abcd);
    d.set_base_high(0x78);
    assert_eq!(d.0, 0x7800_0056_1234_abcd);
    d.set_present(true);
    assert_eq!(d.0 & (1 << 47), 1 << 47);
    d.set_present(false);
    assert_eq!(d.0 & (1 << 47), 0);
    d.set_long_mode(true);
    assert_eq!(d.0 & (1 << 53), 1 << 53);
    d.set_granularity(true);
    assert_eq!(d.0 & (1 << 55), 1 << 55);
    d.set_limit_high(0xf);
    assert_eq!(d.0 & (0xf << 48), 0xf << 48);
    d.set_descriptor_privilege_level(3);
    assert_eq!(d.0 & (3u64 << 45), 3u64 << 45);
    d.set_data(7);
    assert_eq!(d.0, 7);
}
