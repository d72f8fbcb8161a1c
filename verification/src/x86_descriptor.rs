//! Descriptor type codes shared by the GDT and the IDT.
//!
//! The numeric values are the x86_64 system/segment descriptor type
//! codes that the processor reads out of bits 40..44 of a segment
//! descriptor, or bits 8..12 of an interrupt gate's attribute word.

use vstd::prelude::*;

verus! {

/// A 4-bit x86 descriptor type code, stored widened to `u16` so it can
/// be placed into an attribute word directly.
#[derive(Debug, Clone, Copy, PartialEq, Eq, Structural)]
pub struct DescriptorType(pub u16);

impl DescriptorType {
    /// The code placed in the upper-bytes half of a 16-byte system descriptor.
    #[allow(non_snake_case)]
    pub fn UpperBytes() -> (r: Self)
        ensures r.0 == 0,
    {
        Self(0)
    }

    /// Local descriptor table.
    #[allow(non_snake_case)]
    pub fn Ldt() -> (r: Self)
        ensures r.0 == 2,
    {
        Self(2)
    }

    /// 64-bit TSS, available.
    #[allow(non_snake_case)]
    pub fn TssAvailable() -> (r: Self)
        ensures r.0 == 9,
    {
        Self(9)
    }

    /// 64-bit TSS, busy.
    #[allow(non_snake_case)]
    pub fn TssBusy() -> (r: Self)
        ensures r.0 == 11,
    {
        Self(11)
    }

    /// Call gate.
    #[allow(non_snake_case)]
    pub fn CallGate() -> (r: Self)
        ensures r.0 == 12,
    {
        Self(12)
    }

    /// Interrupt gate: the handler runs with interrupts suppressed.
    #[allow(non_snake_case)]
    pub fn InterruptGate() -> (r: Self)
        ensures r.0 == 14,
    {
        Self(14)
    }

    /// Trap gate: the handler runs with interrupts left as they were.
    #[allow(non_snake_case)]
    pub fn TrapGate() -> (r: Self)
        ensures r.0 == 15,
    {
        Self(15)
    }

    /// Data segment, read/write.
    #[allow(non_snake_case)]
    pub fn ReadWrite() -> (r: Self)
        ensures r.0 == 2,
    {
        Self(2)
    }

    /// Code segment, execute/read.
    #[allow(non_snake_case)]
    pub fn ExecuteRead() -> (r: Self)
        ensures r.0 == 10,
    {
        Self(10)
    }

    /// The raw 4-bit code, widened.
    pub fn to_u16(self) -> (r: u16)
        ensures r == self.0,
    {
        self.0
    }

    /// A code that fits in the 4 bits a descriptor stores;
    /// every constructor above yields one.
    pub open spec fn is_valid(self) -> bool {
        self.0 < 16
    }
}

} // verus!
