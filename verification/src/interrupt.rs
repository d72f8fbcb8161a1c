//! Interrupt Descriptor Table construction.
//!
//! A gate's 16-bit attribute word packs: present at bit 15, descriptor
//! privilege level at bits 13..15, gate type at bits 8..12, and the
//! interrupt-stack-table index at bits 0..3. A gate descriptor splits
//! the 64-bit handler address into low 16 / middle 16 / high 32 bit
//! fields next to the code-segment selector and the attribute word.
//! The table has 256 fixed slots; unused ones stay zeroed, so their
//! present bit is clear.

use vstd::prelude::*;

use crate::x86::IdtParam;
use crate::x86_descriptor::DescriptorType;
use crate::{KernelError, KernelResult};

verus! {

/// Number of gates in the table.
pub const IDT_ENTRIES: usize = 256;

/// One 16-byte-slot IDT gate, with the handler offset split across
/// three fields as the hardware lays it out.
#[derive(Debug, Clone, Copy, PartialEq, Eq, Structural)]
pub struct InterruptDescriptor {
    pub offset_low: u16,
    pub segment_selector: u16,
    pub attr: InterruptDescriptorAttribute,
    pub offset_middle: u16,
    pub offset_high: u32,
}

impl InterruptDescriptor {
    /// A zeroed, not-present gate.
    pub fn new() -> (r: Self)
        ensures r == InterruptDescriptor::zeroed(),
    {
        Self {
            offset_low: 0,
            segment_selector: 0,
            attr: InterruptDescriptorAttribute(0),
            offset_middle: 0,
            offset_high: 0,
        }
    }

    /// The all-zero gate every slot starts out as.
    pub open spec fn zeroed() -> Self {
        InterruptDescriptor {
            offset_low: 0,
            segment_selector: 0,
            attr: InterruptDescriptorAttribute(0),
            offset_middle: 0,
            offset_high: 0,
        }
    }

    /// The 64-bit handler address reassembled from the three fields.
    pub open spec fn spec_offset(self) -> u64 {
        (self.offset_low as u64) | ((self.offset_middle as u64) << 16) | ((self.offset_high as u64)
            << 32)
    }
}

impl Default for InterruptDescriptor {
    fn default() -> (r: Self)
        ensures r == InterruptDescriptor::zeroed(),
    {
        InterruptDescriptor::new()
    }
}

/// The packed attribute word of a gate.
#[derive(Debug, Clone, Copy, PartialEq, Eq, Structural)]
pub struct InterruptDescriptorAttribute(pub u16);

impl InterruptDescriptorAttribute {
    /// Bit 15: present flag.
    pub fn present(&self) -> (r: bool)
        ensures r == self.spec_present(),
    {
        (self.0 >> 15) & 1 == 1
    }

    pub open spec fn spec_present(self) -> bool {
        (self.0 >> 15) & 1 == 1
    }

    /// Bits 13..15: descriptor privilege level.
    pub fn descriptor_privilege_level(&self) -> (r: u16)
        ensures r == self.spec_descriptor_privilege_level(),
    {
        (self.0 >> 13) & 3
    }

    pub open spec fn spec_descriptor_privilege_level(self) -> u16 {
        (self.0 >> 13) & 3
    }

    /// Bits 8..12: descriptor type code.
    pub fn descriptor_type(&self) -> (r: u16)
        ensures r == self.spec_descriptor_type(),
    {
        (self.0 >> 8) & 0xf
    }

    pub open spec fn spec_descriptor_type(self) -> u16 {
        (self.0 >> 8) & 0xf
    }

    /// Bits 0..3: interrupt-stack-table index.
    pub fn interrupt_stack_table(&self) -> (r: u16)
        ensures r == self.spec_interrupt_stack_table(),
    {
        self.0 & 7
    }

    pub open spec fn spec_interrupt_stack_table(self) -> u16 {
        self.0 & 7
    }
}

/// The attribute word with the four fields at their bit positions.
pub open spec fn idt_attr_value(typ: u16, dpl: u16, present: bool, ist: u16) -> u16 {
    (if present { 0x8000u16 } else { 0u16 }) | (dpl << 13) | (typ << 8) | ist
}

/// Packs (type, privilege, present, IST index) into an attribute word.
pub fn make_idt_attr(
    descriptor_type: DescriptorType,
    descriptor_privilege_level: u16,
    present: bool,
    interrupt_stack_table: u16,
) -> (r: InterruptDescriptorAttribute)
    requires
        descriptor_type.is_valid(),
        descriptor_privilege_level < 4,
        interrupt_stack_table < 8,
    ensures
        r.0 == idt_attr_value(
            descriptor_type.0,
            descriptor_privilege_level,
            present,
            interrupt_stack_table,
        ),
{
    let typ = descriptor_type.to_u16();
    let field: u16 = (if present {
        0x8000u16
    } else {
        0u16
    }) | (descriptor_privilege_level << 13) | (typ << 8) | interrupt_stack_table;
    InterruptDescriptorAttribute(field)
}

/// Packing then unpacking the attribute word reproduces every field:
/// present at bit 15, privilege at bits 13..15, type at bits 8..12,
/// IST index at bits 0..3.
pub proof fn lemma_idt_attr_round_trip(typ: u16, dpl: u16, present: bool, ist: u16)
    requires
        typ < 16,
        dpl < 4,
        ist < 8,
    ensures
        InterruptDescriptorAttribute(idt_attr_value(typ, dpl, present, ist)).spec_present()
            == present,
        InterruptDescriptorAttribute(
            idt_attr_value(typ, dpl, present, ist),
        ).spec_descriptor_privilege_level() == dpl,
        InterruptDescriptorAttribute(idt_attr_value(typ, dpl, present, ist)).spec_descriptor_type()
            == typ,
        InterruptDescriptorAttribute(
            idt_attr_value(typ, dpl, present, ist),
        ).spec_interrupt_stack_table() == ist,
{
    let v = idt_attr_value(typ, dpl, present, ist);
    if present {
        assert(typ < 16 && dpl < 4 && ist < 8 ==> {
            let w = 0x8000u16 | (dpl << 13) | (typ << 8) | ist;
            ((w >> 15) & 1 == 1) == true && (w >> 13) & 3 == dpl && (w >> 8) & 0xf == typ && w & 7
                == ist
        }) by (bit_vector);
    } else {
        assert(typ < 16 && dpl < 4 && ist < 8 ==> {
            let w = 0u16 | (dpl << 13) | (typ << 8) | ist;
            ((w >> 15) & 1 == 1) == false && (w >> 13) & 3 == dpl && (w >> 8) & 0xf == typ && w & 7
                == ist
        }) by (bit_vector);
    }
}

/// Fills a gate: splits the handler address per the hardware layout
/// and stores the selector and attribute word.
pub fn set_idt_entry(
    desc: &mut InterruptDescriptor,
    attr: InterruptDescriptorAttribute,
    offset: u64,
    segment_selector: u16,
)
    ensures
        final(desc).attr == attr,
        final(desc).segment_selector == segment_selector,
        final(desc).offset_low == offset & 0xffff,
        final(desc).offset_middle == (offset >> 16) & 0xffff,
        final(desc).offset_high == offset >> 32,
        final(desc).spec_offset() == offset,
{
    proof {
        assert((offset & 0xffff) < 0x10000 && ((offset >> 16) & 0xffff) < 0x10000 && (offset >> 32)
            < 0x1_0000_0000) by (bit_vector);
    }
    desc.attr = attr;
    desc.offset_low = (offset & 0xffff) as u16;
    desc.offset_middle = ((offset >> 16) & 0xffff) as u16;
    desc.offset_high = (offset >> 32) as u32;
    desc.segment_selector = segment_selector;
    proof {
        assert({
            let lo = (offset & 0xffff) as u16;
            let mid = ((offset >> 16) & 0xffff) as u16;
            let hi = (offset >> 32) as u32;
            (lo as u64) | ((mid as u64) << 16) | ((hi as u64) << 32) == offset
        }) by (bit_vector);
    }
}

/// The vector a handler is installed at.
#[derive(Debug, Clone, Copy, PartialEq, Eq, Structural)]
pub struct InterruptVector(pub usize);

impl InterruptVector {
    /// The fixed vector this core routes the xHCI interrupt to.
    #[allow(non_snake_case)]
    pub fn Xhci() -> (r: Self)
        ensures r.0 == 0x40,
    {
        Self(0x40)
    }

    pub fn get(&self) -> (r: usize)
        ensures r == self.0,
    {
        self.0
    }
}

/// The processor state pushed by the hardware on interrupt entry.
#[derive(Debug, Clone, Copy, PartialEq, Eq, Structural)]
pub struct InterruptFrame {
    pub rip: u64,
    pub cs: u64,
    pub rflags: u64,
    pub rsp: u64,
    pub ss: u64,
}

/// The 256-slot interrupt descriptor table.
pub struct Idt {
    entries: Vec<InterruptDescriptor>,
}

impl Idt {
    /// The gates, in vector order; always 256 of them.
    pub closed spec fn view(&self) -> Seq<InterruptDescriptor> {
        self.entries@
    }

    pub open spec fn wf(&self) -> bool {
        self@.len() == IDT_ENTRIES
    }

    /// A table of 256 zeroed (not-present) gates.
    pub fn new() -> (r: Self)
        ensures
            r.wf(),
            forall|i: int| 0 <= i < IDT_ENTRIES ==> r@[i] == InterruptDescriptor::zeroed(),
    {
        let mut entries: Vec<InterruptDescriptor> = Vec::new();
        let mut i: usize = 0;
        while i < IDT_ENTRIES
            invariant
                i <= IDT_ENTRIES,
                entries@.len() == i,
                forall|j: int| 0 <= j < i ==> entries@[j] == InterruptDescriptor::zeroed(),
            decreases IDT_ENTRIES - i,
        {
            entries.push(InterruptDescriptor::new());
            i = i + 1;
        }
        Idt { entries }
    }

    /// Gate `vector` of the table.
    pub fn entry(&self, vector: usize) -> (r: InterruptDescriptor)
        requires
            self.wf(),
            vector < IDT_ENTRIES,
        ensures r == self@[vector as int],
    {
        self.entries[vector]
    }

    /// Installs a handler at `vector`, refusing a vector whose gate is
    /// already present so a registration cannot be clobbered silently.
    pub fn register_handler(
        &mut self,
        vector: InterruptVector,
        attr: InterruptDescriptorAttribute,
        offset: u64,
        segment_selector: u16,
    ) -> (r: KernelResult<()>)
        requires
            old(self).wf(),
            vector.0 < IDT_ENTRIES,
        ensures
            final(self).wf(),
            old(self)@[vector.0 as int].attr.spec_present() ==> r == KernelResult::<()>::Err(
                KernelError::VectorAlreadyClaimed,
            ) && final(self)@ == old(self)@,
            !old(self)@[vector.0 as int].attr.spec_present() ==> r == KernelResult::<()>::Ok(())
                && final(self)@ == old(self)@.update(
                vector.0 as int,
                final(self)@[vector.0 as int],
            ) && final(self)@[vector.0 as int].attr == attr && final(self)@[
                vector.0 as int
            ].spec_offset() == offset && final(self)@[vector.0 as int].segment_selector
                == segment_selector,
    {
        let idx = vector.get();
        if self.entries[idx].attr.present() {
            return Err(KernelError::VectorAlreadyClaimed);
        }
        let mut gate = InterruptDescriptor::new();
        set_idt_entry(&mut gate, attr, offset, segment_selector);
        self.entries.set(idx, gate);
        Ok(())
    }

    /// The descriptor-table register value for this table, given the
    /// address the shell placed it at: limit is the byte size less one.
    pub fn param(&self, table_base: usize) -> (r: IdtParam)
        ensures
            r.limit == 256 * 16 - 1,
            r.base == table_base,
    {
        IdtParam { limit: 256 * 16 - 1, base: table_base }
    }
}

} // verus!
