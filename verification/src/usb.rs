//! The xHCI host controller, as this core sees it.
//!
//! The controller's protocol engine is an external native component;
//! the library only tracks where its register window sits and which
//! PCI class code identifies it. The shell owns the calls across the
//! foreign boundary — initialise, run, configure ports, pump the
//! event ring — and the main loop decides when to make them.

use vstd::prelude::*;

use crate::pci::Device;

verus! {

/// The class code (base, sub, interface) of an xHCI USB controller.
pub open spec fn spec_is_xhci(d: Device) -> bool {
    d.class_code == (0x0cu8, 0x03u8, 0x30u8)
}

/// Whether `d` is an xHCI USB controller.
pub fn is_xhci(d: &Device) -> (r: bool)
    ensures r == spec_is_xhci(*d),
{
    d.class_code.0 == 0x0c && d.class_code.1 == 0x03 && d.class_code.2 == 0x30
}

/// Handle for one xHCI controller: the base of its register window,
/// taken from its first BAR with the type bits masked off.
pub struct XhciController {
    mmio_base: usize,
}

impl XhciController {
    pub fn new(mmio_base: usize) -> (r: Self)
        ensures r.spec_mmio_base() == mmio_base,
    {
        Self { mmio_base }
    }

    pub closed spec fn spec_mmio_base(&self) -> usize {
        self.mmio_base
    }

    /// The register window this controller was created over.
    pub fn mmio_base(&self) -> (r: usize)
        ensures r == self.spec_mmio_base(),
    {
        self.mmio_base
    }
}

} // verus!
