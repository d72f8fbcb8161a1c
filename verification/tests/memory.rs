use kernel_core::memory_manager::{BYTES_PER_FRAME, FrameID};
use kernel_core::memory_map::{
    EFIMemoryDescriptor, EFIMemoryType, MEMORY_MAP_SIZE, MemoryDescriptorVisitor, MemoryMap,
    is_available,
};

fn write_u32(buf: &mut [u8], off: usize, v: u32) {
    for (i, b) in v.to_le_bytes().iter().enumerate() {
        buf[off + i] = *b;
    }
}

fn write_u64(buf: &mut [u8], off: usize, v: u64) {
    for (i, b) in v.to_le_bytes().iter().enumerate() {
        buf[off + i] = *b;
    }
}

fn write_descriptor(buf: &mut [u8], off: usize, code: u32, phys: u64, virt: u64, pages: u64, attr: u64) {
    write_u32(buf, off, code);
    write_u64(buf, off + 8, phys);
    write_u64(buf, off + 16, virt);
    write_u64(buf, off + 24, pages);
    write_u64(buf, off + 32, attr);
}

#[test]
fn visitor_decodes_the_packed_records() {
    let mut map = MemoryMap::default();
    assert_eq!(map.size, MEMORY_MAP_SIZE);
    map.descriptor_size = 48;
    map.size = 96;
    write_descriptor(&mut map.buf, 0, 7, 0x10_0000, 0, 256, 0xf);
    write_descriptor(&mut map.buf, 48, 3, 0x20_0000, 0x40_0000, 16, 0x1);

    let mut visitor = MemoryDescriptorVisitor::new(&map);
    let first = visitor.next().expect("first record");
    assert_eq!(
        first,
        EFIMemoryDescriptor {
            typ: EFIMemoryType::ConventionalMemory,
            physical_start: 0x10_0000,
            virtual_start: 0,
            number_of_pages: 256,
            attribute: 0xf,
        }
    );
    let second = visitor.next().expect("second record");
    assert_eq!(second.typ, EFIMemoryType::BootServicesCode);
    assert_eq!(second.physical_start, 0x20_0000);
    assert_eq!(second.virtual_start, 0x40_0000);
    assert_eq!(second.number_of_pages, 16);
    assert_eq!(second.attribute, 0x1);
    assert!(visitor.next().is_none());
}

#[test]
fn visitor_stops_on_degenerate_geometry() {
    let map = MemoryMap::default();
    // descriptor_size is zero in an unfilled map: nothing to walk.
    let mut visitor = MemoryDescriptorVisitor::new(&map);
    assert!(visitor.next().is_none());
}

#[test]
fn unknown_type_codes_decode_as_reserved() {
    let mut map = MemoryMap::default();
    map.descriptor_size = 48;
    map.size = 48;
    write_descriptor(&mut map.buf, 0, 999, 0, 0, 0, 0);
    let mut visitor = MemoryDescriptorVisitor::new(&map);
    assert_eq!(visitor.next().unwrap().typ, EFIMemoryType::ReservedMemoryType);
}

#[test]
fn availability_covers_exactly_the_three_reusable_kinds() {
    assert!(is_available(EFIMemoryType::BootServicesCode));
    assert!(is_available(EFIMemoryType::BootServicesData));
    assert!(is_available(EFIMemoryType::ConventionalMemory));
    assert!(!is_available(EFIMemoryType::ReservedMemoryType));
    assert!(!is_available(EFIMemoryType::LoaderCode));
    assert!(!is_available(EFIMemoryType::RuntimeServicesData));
    assert!(!is_available(EFIMemoryType::MemoryMappedIO));
}

#[test]
fn memory_type_codes_round_trip() {
    for code in 0..17u32 {
        let t = EFIMemoryType::from_code(code);
        assert_eq!(t.code(), code);
    }
    assert_eq!(EFIMemoryType::from_code(17), EFIMemoryType::ReservedMemoryType);
    assert_eq!(EFIMemoryType::ConventionalMemory.code(), 7);
}

#[test]
fn frame_ids_name_frames() {
    let f = FrameID::new(3);
    assert_eq!(f.id(), 3);
    assert_eq!(f.base_address(), 3 * BYTES_PER_FRAME);
    assert_eq!(BYTES_PER_FRAME, 4096);
}
