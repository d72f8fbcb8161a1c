//! The UEFI memory map as handed over at boot, and a cursor that
//! decodes its packed descriptors.
//!
//! The firmware fills a byte buffer with `descriptor_size`-strided
//! records; each record starts with a 32-bit region type followed, at
//! the offsets its C layout fixes, by four 64-bit words: physical
//! start, virtual start, page count and attributes. The cursor reads
//! them straight out of the bytes, little endian.

use vstd::prelude::*;

verus! {

/// Byte capacity of the boot-time memory-map buffer.
pub const MEMORY_MAP_SIZE: usize = 4096 * 4;

/// Bytes a boot-services page covers.
pub const UEFI_PAGE_SIZE: i32 = 4096;

/// The region types the firmware reports.
#[allow(clippy::upper_case_acronyms)]
#[derive(Debug, Clone, Copy, PartialEq, Eq, Structural)]
pub enum EFIMemoryType {
    ReservedMemoryType,
    LoaderCode,
    LoaderData,
    BootServicesCode,
    BootServicesData,
    RuntimeServicesCode,
    RuntimeServicesData,
    ConventionalMemory,
    UnusableMemory,
    ACPIReclaimMemory,
    ACPIMemoryNVS,
    MemoryMappedIO,
    MemoryMappedIOPortSpace,
    PalCode,
    PersistentMemory,
    UnacceptedMemoryType,
    MaxMemoryType,
}

/// The numeric code the firmware writes for `t`.
pub open spec fn spec_memory_type_code(t: EFIMemoryType) -> u32 {
    match t {
        EFIMemoryType::ReservedMemoryType => 0,
        EFIMemoryType::LoaderCode => 1,
        EFIMemoryType::LoaderData => 2,
        EFIMemoryType::BootServicesCode => 3,
        EFIMemoryType::BootServicesData => 4,
        EFIMemoryType::RuntimeServicesCode => 5,
        EFIMemoryType::RuntimeServicesData => 6,
        EFIMemoryType::ConventionalMemory => 7,
        EFIMemoryType::UnusableMemory => 8,
        EFIMemoryType::ACPIReclaimMemory => 9,
        EFIMemoryType::ACPIMemoryNVS => 10,
        EFIMemoryType::MemoryMappedIO => 11,
        EFIMemoryType::MemoryMappedIOPortSpace => 12,
        EFIMemoryType::PalCode => 13,
        EFIMemoryType::PersistentMemory => 14,
        EFIMemoryType::UnacceptedMemoryType => 15,
        EFIMemoryType::MaxMemoryType => 16,
    }
}

/// The region type for code `v`; codes past the defined range decode
/// as reserved.
pub open spec fn spec_memory_type_of_code(v: u32) -> EFIMemoryType {
    if v == 1 {
        EFIMemoryType::LoaderCode
    } else if v == 2 {
        EFIMemoryType::LoaderData
    } else if v == 3 {
        EFIMemoryType::BootServicesCode
    } else if v == 4 {
        EFIMemoryType::BootServicesData
    } else if v == 5 {
        EFIMemoryType::RuntimeServicesCode
    } else if v == 6 {
        EFIMemoryType::RuntimeServicesData
    } else if v == 7 {
        EFIMemoryType::ConventionalMemory
    } else if v == 8 {
        EFIMemoryType::UnusableMemory
    } else if v == 9 {
        EFIMemoryType::ACPIReclaimMemory
    } else if v == 10 {
        EFIMemoryType::ACPIMemoryNVS
    } else if v == 11 {
        EFIMemoryType::MemoryMappedIO
    } else if v == 12 {
        EFIMemoryType::MemoryMappedIOPortSpace
    } else if v == 13 {
        EFIMemoryType::PalCode
    } else if v == 14 {
        EFIMemoryType::PersistentMemory
    } else if v == 15 {
        EFIMemoryType::UnacceptedMemoryType
    } else if v == 16 {
        EFIMemoryType::MaxMemoryType
    } else {
        EFIMemoryType::ReservedMemoryType
    }
}

impl EFIMemoryType {
    /// Decodes the firmware's numeric region-type code.
    pub fn from_code(v: u32) -> (r: EFIMemoryType)
        ensures r == spec_memory_type_of_code(v),
    {
        match v {
            1 => EFIMemoryType::LoaderCode,
            2 => EFIMemoryType::LoaderData,
            3 => EFIMemoryType::BootServicesCode,
            4 => EFIMemoryType::BootServicesData,
            5 => EFIMemoryType::RuntimeServicesCode,
            6 => EFIMemoryType::RuntimeServicesData,
            7 => EFIMemoryType::ConventionalMemory,
            8 => EFIMemoryType::UnusableMemory,
            9 => EFIMemoryType::ACPIReclaimMemory,
            10 => EFIMemoryType::ACPIMemoryNVS,
            11 => EFIMemoryType::MemoryMappedIO,
            12 => EFIMemoryType::MemoryMappedIOPortSpace,
            13 => EFIMemoryType::PalCode,
            14 => EFIMemoryType::PersistentMemory,
            15 => EFIMemoryType::UnacceptedMemoryType,
            16 => EFIMemoryType::MaxMemoryType,
            _ => EFIMemoryType::ReservedMemoryType,
        }
    }

    /// The numeric code of this region type.
    pub fn code(&self) -> (r: u32)
        ensures r == spec_memory_type_code(*self),
    {
        match self {
            EFIMemoryType::ReservedMemoryType => 0,
            EFIMemoryType::LoaderCode => 1,
            EFIMemoryType::LoaderData => 2,
            EFIMemoryType::BootServicesCode => 3,
            EFIMemoryType::BootServicesData => 4,
            EFIMemoryType::RuntimeServicesCode => 5,
            EFIMemoryType::RuntimeServicesData => 6,
            EFIMemoryType::ConventionalMemory => 7,
            EFIMemoryType::UnusableMemory => 8,
            EFIMemoryType::ACPIReclaimMemory => 9,
            EFIMemoryType::ACPIMemoryNVS => 10,
            EFIMemoryType::MemoryMappedIO => 11,
            EFIMemoryType::MemoryMappedIOPortSpace => 12,
            EFIMemoryType::PalCode => 13,
            EFIMemoryType::PersistentMemory => 14,
            EFIMemoryType::UnacceptedMemoryType => 15,
            EFIMemoryType::MaxMemoryType => 16,
        }
    }
}

/// Whether a region of type `memory_type` is free for the kernel once
/// boot services have been exited.
pub fn is_available(memory_type: EFIMemoryType) -> (r: bool)
    ensures
        r == (memory_type == EFIMemoryType::BootServicesCode || memory_type
            == EFIMemoryType::BootServicesData || memory_type
            == EFIMemoryType::ConventionalMemory),
{
    memory_type == EFIMemoryType::BootServicesCode || memory_type
        == EFIMemoryType::BootServicesData || memory_type == EFIMemoryType::ConventionalMemory
}

/// One decoded memory-map record.
#[derive(Debug, Clone, Copy, PartialEq, Eq, Structural)]
pub struct EFIMemoryDescriptor {
    pub typ: EFIMemoryType,
    pub physical_start: u64,
    pub virtual_start: u64,
    pub number_of_pages: u64,
    pub attribute: u64,
}

/// The raw memory map: the firmware's byte buffer and the geometry it
/// reported for it.
#[derive(Debug)]
pub struct MemoryMap {
    pub size: usize,
    pub buf: Vec<u8>,
    pub map_key: usize,
    pub descriptor_size: usize,
    pub version: u32,
}

impl Default for MemoryMap {
    /// An empty map: a zeroed buffer of the full capacity.
    fn default() -> (r: Self)
        ensures
            r.size == MEMORY_MAP_SIZE,
            r.buf@.len() == MEMORY_MAP_SIZE,
            r.map_key == 0,
            r.descriptor_size == 0,
            r.version == 0,
            forall|i: int| 0 <= i < MEMORY_MAP_SIZE ==> r.buf@[i] == 0,
    {
        let mut buf: Vec<u8> = Vec::new();
        let mut i: usize = 0;
        while i < MEMORY_MAP_SIZE
            invariant
                i <= MEMORY_MAP_SIZE,
                buf@.len() == i,
                forall|k: int| 0 <= k < i ==> buf@[k] == 0,
            decreases MEMORY_MAP_SIZE - i,
        {
            buf.push(0);
            i = i + 1;
        }
        MemoryMap { size: MEMORY_MAP_SIZE, buf, map_key: 0, descriptor_size: 0, version: 0 }
    }
}

/// The 32-bit little-endian word at byte offset `off` of `s`.
pub open spec fn spec_le_u32(s: Seq<u8>, off: int) -> u32 {
    (s[off] + s[off + 1] * 0x100 + s[off + 2] * 0x1_0000 + s[off + 3] * 0x100_0000) as u32
}

/// The 64-bit little-endian word at byte offset `off` of `s`.
pub open spec fn spec_le_u64(s: Seq<u8>, off: int) -> u64 {
    (s[off] + s[off + 1] * 0x100 + s[off + 2] * 0x1_0000 + s[off + 3] * 0x100_0000 + s[off + 4]
        * 0x1_0000_0000 + s[off + 5] * 0x100_0000_0000 + s[off + 6] * 0x1_0000_0000_0000 + s[off
        + 7] * 0x100_0000_0000_0000) as u64
}

/// Reads the 32-bit little-endian word at `off`.
fn le_u32_at(buf: &Vec<u8>, off: usize) -> (r: u32)
    requires off + 4 <= buf@.len(),
    ensures r == spec_le_u32(buf@, off as int),
{
    let n = buf.len();
    proof {
        assert(off + 4 <= n);
    }
    (buf[off] as u32) + (buf[off + 1] as u32) * 0x100 + (buf[off + 2] as u32) * 0x1_0000 + (buf[off
        + 3] as u32) * 0x100_0000
}

/// Reads the 64-bit little-endian word at `off`.
fn le_u64_at(buf: &Vec<u8>, off: usize) -> (r: u64)
    requires off + 8 <= buf@.len(),
    ensures r == spec_le_u64(buf@, off as int),
{
    let n = buf.len();
    proof {
        assert(off + 8 <= n);
    }
    (buf[off] as u64) + (buf[off + 1] as u64) * 0x100 + (buf[off + 2] as u64) * 0x1_0000 + (buf[off
        + 3] as u64) * 0x100_0000 + (buf[off + 4] as u64) * 0x1_0000_0000 + (buf[off + 5] as u64)
        * 0x100_0000_0000 + (buf[off + 6] as u64) * 0x1_0000_0000_0000 + (buf[off + 7] as u64)
        * 0x100_0000_0000_0000
}

/// The record the cursor standing at `offset` decodes, if any: the
/// map's geometry must leave room for one more whole record inside
/// both the reported size and the buffer.
pub open spec fn spec_descriptor_at(m: &MemoryMap, offset: int) -> Option<EFIMemoryDescriptor> {
    if m.descriptor_size == 0 || m.size < m.descriptor_size || offset > m.size
        - m.descriptor_size || offset + 40 > m.buf@.len() {
        Option::None
    } else {
        Option::Some(
            EFIMemoryDescriptor {
                typ: spec_memory_type_of_code(spec_le_u32(m.buf@, offset)),
                physical_start: spec_le_u64(m.buf@, offset + 8),
                virtual_start: spec_le_u64(m.buf@, offset + 16),
                number_of_pages: spec_le_u64(m.buf@, offset + 24),
                attribute: spec_le_u64(m.buf@, offset + 32),
            },
        )
    }
}

/// A cursor over the memory map's records.
#[derive(Debug)]
pub struct MemoryDescriptorVisitor<'a> {
    memory_map: &'a MemoryMap,
    offset: usize,
}

impl<'a> MemoryDescriptorVisitor<'a> {
    pub closed spec fn spec_offset(&self) -> int {
        self.offset as int
    }

    pub closed spec fn spec_map(&self) -> &'a MemoryMap {
        self.memory_map
    }

    /// A cursor at the first record.
    pub fn new(memory_map: &'a MemoryMap) -> (r: Self)
        ensures
            r.spec_offset() == 0,
            r.spec_map() == memory_map,
    {
        Self { memory_map, offset: 0 }
    }

    /// Decodes the record under the cursor and steps one stride
    /// forward, or reports the end of the walkable map.
    pub fn next(&mut self) -> (r: Option<EFIMemoryDescriptor>)
        ensures
            final(self).spec_map() == old(self).spec_map(),
            r == spec_descriptor_at(old(self).spec_map(), old(self).spec_offset()),
            r is Some ==> final(self).spec_offset() == old(self).spec_offset() + old(
                self,
            ).spec_map().descriptor_size,
            r is None ==> final(self).spec_offset() == old(self).spec_offset(),
    {
        let m = self.memory_map;
        if m.descriptor_size == 0 || m.size < m.descriptor_size {
            return None;
        }
        if self.offset > m.size - m.descriptor_size {
            return None;
        }
        let buf_len = m.buf.len();
        if buf_len < 40 || self.offset > buf_len - 40 {
            return None;
        }

        let off = self.offset;
        let descriptor = EFIMemoryDescriptor {
            typ: EFIMemoryType::from_code(le_u32_at(&m.buf, off)),
            physical_start: le_u64_at(&m.buf, off + 8),
            virtual_start: le_u64_at(&m.buf, off + 16),
            number_of_pages: le_u64_at(&m.buf, off + 24),
            attribute: le_u64_at(&m.buf, off + 32),
        };
        self.offset = off + m.descriptor_size;
        Some(descriptor)
    }
}

} // verus!
