//! Global Descriptor Table construction.
//!
//! A segment descriptor is one 64-bit word whose fields sit at fixed
//! bit positions: limit 0..16 and 48..52, base 16..40 and 56..64, type
//! 40..44, S 44, DPL 45..47, P 47, AVL 52, L 53, D/B 54, G 55. The
//! table built here has the classic three entries — null, code, data —
//! and never changes after boot; loading it into the processor is the
//! unverified shell's one remaining step.

use vstd::prelude::*;

use crate::x86::GdtParam;
use crate::x86_descriptor::DescriptorType;

verus! {

/// One 64-bit GDT entry.
#[derive(Debug, Clone, Copy, PartialEq, Eq, Structural)]
pub struct SegmentDescriptor(pub u64);

impl SegmentDescriptor {
    pub fn new(value: u64) -> (r: Self)
        ensures r.0 == value,
    {
        Self(value)
    }

    /// Replaces the whole word.
    pub fn set_data(&mut self, value: u64)
        ensures final(self).0 == value,
    {
        self.0 = value;
    }

    /// Bits 0..16: low 16 bits of the limit.
    pub fn set_limit_low(&mut self, value: u16)
        ensures final(self).0 == (old(self).0 & !0xffffu64) | (value as u64),
    {
        self.0 = (self.0 & !0xffffu64) | (value as u64);
    }

    /// Bits 16..32: low 16 bits of the base.
    pub fn set_base_low(&mut self, value: u16)
        ensures final(self).0 == (old(self).0 & !0xffff_0000u64) | ((value as u64) << 16),
    {
        self.0 = (self.0 & !0xffff_0000u64) | ((value as u64) << 16);
    }

    /// Bits 32..40: middle 8 bits of the base.
    pub fn set_base_middle(&mut self, value: u8)
        ensures final(self).0 == (old(self).0 & !0xff_0000_0000u64) | ((value as u64) << 32),
    {
        self.0 = (self.0 & !0xff_0000_0000u64) | ((value as u64) << 32);
    }

    /// Bits 40..44: the 4-bit descriptor type code.
    pub fn set_type(&mut self, value: DescriptorType)
        requires value.is_valid(),
        ensures final(self).0 == (old(self).0 & !0xf00_0000_0000u64) | ((value.0 as u64) << 40),
    {
        let code = value.to_u16();
        self.0 = (self.0 & !0xf00_0000_0000u64) | ((code as u64) << 40);
    }

    /// Bit 44: S — set for code/data segments, clear for system segments.
    pub fn set_system_segment(&mut self, value: bool)
        ensures final(self).0 == if value {
            old(self).0 | 0x1000_0000_0000u64
        } else {
            old(self).0 & !0x1000_0000_0000u64
        },
    {
        if value {
            self.0 = self.0 | 0x1000_0000_0000u64;
        } else {
            self.0 = self.0 & !0x1000_0000_0000u64;
        }
    }

    /// Bits 45..47: descriptor privilege level.
    pub fn set_descriptor_privilege_level(&mut self, value: u8)
        requires value < 4,
        ensures final(self).0 == (old(self).0 & !0x6000_0000_0000u64) | ((value as u64) << 45),
    {
        self.0 = (self.0 & !0x6000_0000_0000u64) | ((value as u64) << 45);
    }

    /// Bit 47: present.
    pub fn set_present(&mut self, value: bool)
        ensures final(self).0 == if value {
            old(self).0 | 0x8000_0000_0000u64
        } else {
            old(self).0 & !0x8000_0000_0000u64
        },
    {
        if value {
            self.0 = self.0 | 0x8000_0000_0000u64;
        } else {
            self.0 = self.0 & !0x8000_0000_0000u64;
        }
    }

    /// Bits 48..52: high 4 bits of the limit.
    pub fn set_limit_high(&mut self, value: u8)
        requires value < 16,
        ensures final(self).0 == (old(self).0 & !0xf_0000_0000_0000u64) | ((value as u64) << 48),
    {
        self.0 = (self.0 & !0xf_0000_0000_0000u64) | ((value as u64) << 48);
    }

    /// Bit 52: available for software use.
    pub fn set_available(&mut self, value: bool)
        ensures final(self).0 == if value {
            old(self).0 | 0x10_0000_0000_0000u64
        } else {
            old(self).0 & !0x10_0000_0000_0000u64
        },
    {
        if value {
            self.0 = self.0 | 0x10_0000_0000_0000u64;
        } else {
            self.0 = self.0 & !0x10_0000_0000_0000u64;
        }
    }

    /// Bit 53: L — 64-bit code segment.
    pub fn set_long_mode(&mut self, value: bool)
        ensures final(self).0 == if value {
            old(self).0 | 0x20_0000_0000_0000u64
        } else {
            old(self).0 & !0x20_0000_0000_0000u64
        },
    {
        if value {
            self.0 = self.0 | 0x20_0000_0000_0000u64;
        } else {
            self.0 = self.0 & !0x20_0000_0000_0000u64;
        }
    }

    /// Bit 54: D/B — 32-bit default operand size.
    pub fn set_default_operation_size(&mut self, value: bool)
        ensures final(self).0 == if value {
            old(self).0 | 0x40_0000_0000_0000u64
        } else {
            old(self).0 & !0x40_0000_0000_0000u64
        },
    {
        if value {
            self.0 = self.0 | 0x40_0000_0000_0000u64;
        } else {
            self.0 = self.0 & !0x40_0000_0000_0000u64;
        }
    }

    /// Bit 55: G — limit granularity of 4 KiB units.
    pub fn set_granularity(&mut self, value: bool)
        ensures final(self).0 == if value {
            old(self).0 | 0x80_0000_0000_0000u64
        } else {
            old(self).0 & !0x80_0000_0000_0000u64
        },
    {
        if value {
            self.0 = self.0 | 0x80_0000_0000_0000u64;
        } else {
            self.0 = self.0 & !0x80_0000_0000_0000u64;
        }
    }

    /// Bits 56..64: high 8 bits of the base.
    pub fn set_base_high(&mut self, value: u8)
        ensures final(self).0 == (old(self).0 & !0xff00_0000_0000_0000u64) | ((value as u64) << 56),
    {
        self.0 = (self.0 & !0xff00_0000_0000_0000u64) | ((value as u64) << 56);
    }
}

/// The 64-bit word of a present, long-mode code segment with the given
/// type code, privilege level, base and 20-bit limit (4 KiB granular).
pub open spec fn code_segment_value(typ: u16, dpl: u8, base: u32, limit: u32) -> u64 {
    ((limit & 0xffff) as u64)
        | (((base & 0xffff) as u64) << 16)
        | ((((base >> 16) & 0xff) as u64) << 32)
        | ((typ as u64) << 40)
        | 0x1000_0000_0000u64
        | ((dpl as u64) << 45)
        | 0x8000_0000_0000u64
        | ((((limit >> 16) & 0xf) as u64) << 48)
        | 0x20_0000_0000_0000u64
        | 0x80_0000_0000_0000u64
        | ((((base >> 24) & 0xff) as u64) << 56)
}

/// As [`code_segment_value`], but with the L bit clear and the D/B bit
/// set: a 32-bit-default data segment.
pub open spec fn data_segment_value(typ: u16, dpl: u8, base: u32, limit: u32) -> u64 {
    (code_segment_value(typ, dpl, base, limit) & !0x20_0000_0000_0000u64)
        | 0x40_0000_0000_0000u64
}

/// Writes the descriptor for a present long-mode code segment.
pub fn set_code_segment(
    desc: &mut SegmentDescriptor,
    typ: DescriptorType,
    descriptor_privilege_level: u8,
    base: u32,
    limit: u32,
)
    requires
        typ.is_valid(),
        descriptor_privilege_level < 4,
    ensures
        final(desc).0 == code_segment_value(typ.0, descriptor_privilege_level, base, limit),
{
    proof {
        assert((base & 0xffff) < 0x10000 && ((base >> 16) & 0xff) < 0x100 && ((base >> 24) & 0xff)
            < 0x100 && (limit & 0xffff) < 0x10000 && ((limit >> 16) & 0xf) < 0x10)
            by (bit_vector);
    }
    desc.set_data(0);
    desc.set_base_low((base & 0xffff) as u16);
    desc.set_base_middle(((base >> 16) & 0xff) as u8);
    desc.set_base_high(((base >> 24) & 0xff) as u8);

    desc.set_limit_low((limit & 0xffff) as u16);
    desc.set_limit_high(((limit >> 16) & 0xf) as u8);

    desc.set_type(typ);
    desc.set_system_segment(true);
    desc.set_descriptor_privilege_level(descriptor_privilege_level);
    desc.set_present(true);
    desc.set_available(false);
    desc.set_long_mode(true);
    desc.set_default_operation_size(false);
    desc.set_granularity(true);
    proof {
        lemma_code_segment_compose(typ.0, descriptor_privilege_level, base, limit);
    }
}

/// Writes the descriptor for a present data segment (L clear, D/B set).
pub fn set_data_segment(
    desc: &mut SegmentDescriptor,
    typ: DescriptorType,
    descriptor_privilege_level: u8,
    base: u32,
    limit: u32,
)
    requires
        typ.is_valid(),
        descriptor_privilege_level < 4,
    ensures
        final(desc).0 == data_segment_value(typ.0, descriptor_privilege_level, base, limit),
{
    set_code_segment(desc, typ, descriptor_privilege_level, base, limit);
    desc.set_long_mode(false);
    desc.set_default_operation_size(true);
}

/// The stepwise masked updates of [`set_code_segment`] compose to the
/// closed form of [`code_segment_value`].
proof fn lemma_code_segment_compose(typ: u16, dpl: u8, base: u32, limit: u32)
    by (bit_vector)
    requires
        typ < 16,
        dpl < 4,
    ensures
        ({
            let v1 = (0u64 & !0xffff_0000u64) | ((((base & 0xffff) as u16) as u64) << 16);
            let v2 = (v1 & !0xff_0000_0000u64) | (((((base >> 16) & 0xff) as u8) as u64) << 32);
            let v3 = (v2 & !0xff00_0000_0000_0000u64) | (((((base >> 24) & 0xff) as u8) as u64)
                << 56);
            let v4 = (v3 & !0xffffu64) | (((limit & 0xffff) as u16) as u64);
            let v5 = (v4 & !0xf_0000_0000_0000u64) | (((((limit >> 16) & 0xf) as u8) as u64) << 48);
            let v6 = (v5 & !0xf00_0000_0000u64) | ((typ as u64) << 40);
            let v7 = v6 | 0x1000_0000_0000u64;
            let v8 = (v7 & !0x6000_0000_0000u64) | ((dpl as u64) << 45);
            let v9 = v8 | 0x8000_0000_0000u64;
            let v10 = v9 & !0x10_0000_0000_0000u64;
            let v11 = v10 | 0x20_0000_0000_0000u64;
            let v12 = v11 & !0x40_0000_0000_0000u64;
            let v13 = v12 | 0x80_0000_0000_0000u64;
            v13 == code_segment_value(typ, dpl, base, limit)
        }),
{
}

/// The fully built three-entry table: null, code, data.
pub struct Gdt {
    entries: Vec<SegmentDescriptor>,
}

impl Gdt {
    /// The descriptors, in table order.
    pub closed spec fn view(&self) -> Seq<u64> {
        self.entries@.map_values(|d: SegmentDescriptor| d.0)
    }

    /// Entry `i` of the table.
    pub fn entry(&self, i: usize) -> (r: SegmentDescriptor)
        requires i < self@.len(),
        ensures r.0 == self@[i as int],
    {
        self.entries[i]
    }

    /// Number of entries: always three.
    pub fn len(&self) -> (r: usize)
        ensures r == self@.len(),
    {
        self.entries.len()
    }

    /// The descriptor-table register value for this table, given the
    /// address the shell placed it at: limit is the byte size less one.
    pub fn param(&self, table_base: usize) -> (r: GdtParam)
        requires self@.len() == 3,
        ensures
            r.limit == 3 * 8 - 1,
            r.base == table_base,
    {
        GdtParam { limit: 8 * 3 - 1, base: table_base }
    }
}

/// Builds the boot GDT: entry 0 null, entry 1 a privilege-0 long-mode
/// code segment, entry 2 a privilege-0 data segment, both with base 0
/// and a 4 KiB-granular limit of 0xfffff.
pub fn setup_segments() -> (gdt: Gdt)
    ensures
        gdt@.len() == 3,
        gdt@[0] == 0,
        gdt@[1] == code_segment_value(10, 0, 0, 0xfffff),
        gdt@[2] == data_segment_value(2, 0, 0, 0xfffff),
{
    let mut null_desc = SegmentDescriptor::new(0);
    null_desc.set_data(0);
    let mut code_desc = SegmentDescriptor::new(0);
    set_code_segment(&mut code_desc, DescriptorType::ExecuteRead(), 0, 0, 0xfffff);
    let mut data_desc = SegmentDescriptor::new(0);
    set_data_segment(&mut data_desc, DescriptorType::ReadWrite(), 0, 0, 0xfffff);

    let mut entries: Vec<SegmentDescriptor> = Vec::new();
    entries.push(null_desc);
    entries.push(code_desc);
    entries.push(data_desc);
    let gdt = Gdt { entries };
    proof {
        assert(gdt@ =~= seq![
            0u64,
            code_segment_value(10, 0, 0, 0xfffff),
            data_segment_value(2, 0, 0, 0xfffff),
        ]);
    }
    gdt
}

} // verus!
