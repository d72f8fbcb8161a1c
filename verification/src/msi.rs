//! MSI capability discovery and configuration.
//!
//! A device's capability list starts at the pointer in configuration
//! register 0x34 and chains through the `next_ptr` byte of each
//! capability header. MSI configuration finds the MSI capability
//! (identifier 0x05), reads the capability block — whose 64-bit
//! address word and per-vector mask words exist only when the header's
//! capability bits say so — rewrites the message address and data,
//! clamps the enabled vector count to what the device supports, sets
//! the enable bit, and writes the block back in exactly the layout it
//! was read in. MSI-X (identifier 0x11) is recognised but not driven.

use vstd::prelude::*;

use crate::pci::{
    ConfigAccess, Device, is_config_address, lemma_make_address_injective_reg, read_conf_reg,
    spec_make_address, write_conf_reg,
};
use crate::{KernelError, KernelResult};

verus! {

/// Capability identifier of MSI.
pub const CAPABILITY_MSI: u8 = 0x05;

/// Capability identifier of MSI-X.
pub const CAPABILITY_MSIX: u8 = 0x11;

/// Capability-list walk budget: longer chains must contain a cycle.
pub const CAP_LIST_FUEL: usize = 256;

/// Edge- or level-triggered delivery.
#[derive(Debug, Clone, Copy, PartialEq, Eq, Structural)]
pub enum MSITriggerMode {
    Edge,
    Level,
}

/// The 3-bit delivery mode field of the message data word.
#[derive(Debug, Clone, Copy, PartialEq, Eq, Structural)]
pub struct MSIDeliveryMode(pub u8);

impl MSIDeliveryMode {
    #[allow(non_snake_case)]
    pub fn Fixed() -> (r: Self)
        ensures r.0 == 0b000,
    {
        Self(0b000)
    }

    #[allow(non_snake_case)]
    pub fn LowestPriority() -> (r: Self)
        ensures r.0 == 0b001,
    {
        Self(0b001)
    }

    #[allow(non_snake_case)]
    pub fn Smi() -> (r: Self)
        ensures r.0 == 0b010,
    {
        Self(0b010)
    }

    #[allow(non_snake_case)]
    pub fn Nmi() -> (r: Self)
        ensures r.0 == 0b100,
    {
        Self(0b100)
    }

    #[allow(non_snake_case)]
    pub fn Init() -> (r: Self)
        ensures r.0 == 0b101,
    {
        Self(0b101)
    }

    #[allow(non_snake_case)]
    pub fn ExtInt() -> (r: Self)
        ensures r.0 == 0b111,
    {
        Self(0b111)
    }
}

/// Bit 23 of the MSI header: the device uses 64-bit message addresses,
/// so an upper-address word follows the address word.
pub open spec fn spec_header_addr_64(h: u32) -> bool {
    (h >> 23) & 1 == 1
}

/// Bit 24 of the MSI header: per-vector masking, so mask and pending
/// words follow the data word.
pub open spec fn spec_header_mask_capable(h: u32) -> bool {
    (h >> 24) & 1 == 1
}

/// Bits 17..20 of the MSI header: log2 of the vectors the device
/// supports.
pub open spec fn spec_header_multi_msg_capable(h: u32) -> u8 {
    ((h >> 17) & 7) as u8
}

/// The 32-bit header word of the MSI capability: identifier, next
/// pointer, and the message-control bits.
#[derive(Debug, Clone, Copy, PartialEq, Eq, Structural)]
pub struct MSICapabilityHeader(pub u32);

impl MSICapabilityHeader {
    /// The raw header word.
    pub fn data(&self) -> (r: u32)
        ensures r == self.0,
    {
        self.0
    }

    /// Bits 0..8: the capability identifier.
    pub fn cap_id(&self) -> (r: u8)
        ensures r == self.0 & 0xff,
    {
        let v = self.0;
        proof {
            assert(v & 0xff < 0x100) by (bit_vector);
        }
        (v & 0xff) as u8
    }

    /// Bit 16: MSI enable.
    pub fn set_msi_enable(&mut self, value: bool)
        ensures final(self).0 == if value {
            old(self).0 | 0x1_0000u32
        } else {
            old(self).0 & !0x1_0000u32
        },
    {
        if value {
            self.0 = self.0 | 0x1_0000u32;
        } else {
            self.0 = self.0 & !0x1_0000u32;
        }
    }

    /// Bit 23: 64-bit message addressing.
    pub fn addr_64_capable(&self) -> (r: bool)
        ensures r == spec_header_addr_64(self.0),
    {
        (self.0 >> 23) & 1 == 1
    }

    /// Bit 24: per-vector masking.
    pub fn per_vector_mask_capable(&self) -> (r: bool)
        ensures r == spec_header_mask_capable(self.0),
    {
        (self.0 >> 24) & 1 == 1
    }

    /// Bits 17..20: supported multiple-message capability.
    pub fn multi_msg_capable(&self) -> (r: u8)
        ensures
            r == spec_header_multi_msg_capable(self.0),
            r < 8,
    {
        let v = self.0;
        proof {
            assert((v >> 17) & 7 < 8) by (bit_vector);
        }
        ((v >> 17) & 7) as u8
    }

    /// Bits 17..20 written: enabled multiple-message count.
    pub fn set_multi_msg_enable(&mut self, value: u8)
        requires value < 8,
        ensures final(self).0 == (old(self).0 & !0xe_0000u32) | ((value as u32) << 17),
    {
        self.0 = (self.0 & !0xe_0000u32) | ((value as u32) << 17);
    }
}

/// The MSI capability block, with the two conditional field pairs kept
/// as zero where the header does not provide them.
#[derive(Debug, Clone, Copy, PartialEq, Eq, Structural)]
pub struct MSICapability {
    pub header: MSICapabilityHeader,
    pub msg_addr: u32,
    pub msg_upper_addr: u32,
    pub msg_data: u32,
    pub mask_bits: u32,
    pub pending_bits: u32,
}

/// Where the message-data word sits: past the optional upper address.
pub open spec fn spec_msi_data_offset(h: u32, cap_addr: u8) -> u8 {
    if spec_header_addr_64(h) {
        (cap_addr + 12) as u8
    } else {
        (cap_addr + 8) as u8
    }
}

/// Mirror of [`read_msi_capability`]: the block as the register values
/// under the conditional layout the header word dictates.
pub open spec fn spec_read_msi_capability<C: ConfigAccess>(
    c: &C,
    dev: &Device,
    cap_addr: u8,
) -> MSICapability {
    let h = c.reg_at(spec_make_address(dev.bus, dev.device, dev.function, cap_addr));
    let msg_addr = c.reg_at(
        spec_make_address(dev.bus, dev.device, dev.function, (cap_addr + 4) as u8),
    );
    let msg_upper_addr = if spec_header_addr_64(h) {
        c.reg_at(spec_make_address(dev.bus, dev.device, dev.function, (cap_addr + 8) as u8))
    } else {
        0u32
    };
    let data_off = spec_msi_data_offset(h, cap_addr);
    let msg_data = c.reg_at(spec_make_address(dev.bus, dev.device, dev.function, data_off));
    let mask_bits = if spec_header_mask_capable(h) {
        c.reg_at(spec_make_address(dev.bus, dev.device, dev.function, (data_off + 4) as u8))
    } else {
        0u32
    };
    let pending_bits = if spec_header_mask_capable(h) {
        c.reg_at(spec_make_address(dev.bus, dev.device, dev.function, (data_off + 8) as u8))
    } else {
        0u32
    };
    MSICapability {
        header: MSICapabilityHeader(h),
        msg_addr,
        msg_upper_addr,
        msg_data,
        mask_bits,
        pending_bits,
    }
}

/// The register value at `a` after [`write_msi_capability`] stored
/// `cap` at `cap_addr` over the space `c`: the chain is ordered so
/// that a later write of the sequence wins, mirroring the write order.
pub open spec fn spec_msi_written_reg<C: ConfigAccess>(
    c: &C,
    dev: &Device,
    cap_addr: u8,
    cap: MSICapability,
    a: u32,
) -> u32 {
    let h = cap.header.0;
    let data_off = spec_msi_data_offset(h, cap_addr);
    if spec_header_mask_capable(h) && a == spec_make_address(
        dev.bus,
        dev.device,
        dev.function,
        (data_off + 8) as u8,
    ) {
        cap.pending_bits
    } else if spec_header_mask_capable(h) && a == spec_make_address(
        dev.bus,
        dev.device,
        dev.function,
        (data_off + 4) as u8,
    ) {
        cap.mask_bits
    } else if a == spec_make_address(dev.bus, dev.device, dev.function, data_off) {
        cap.msg_data
    } else if spec_header_addr_64(h) && a == spec_make_address(
        dev.bus,
        dev.device,
        dev.function,
        (cap_addr + 8) as u8,
    ) {
        cap.msg_upper_addr
    } else if a == spec_make_address(dev.bus, dev.device, dev.function, (cap_addr + 4) as u8) {
        cap.msg_addr
    } else if a == spec_make_address(dev.bus, dev.device, dev.function, cap_addr) {
        cap.header.0
    } else {
        c.reg_at(a)
    }
}

/// Reads the MSI capability block at `cap_addr`, honouring the
/// conditional 64-bit-address and per-vector-mask layout.
pub fn read_msi_capability<C: ConfigAccess>(c: &C, dev: &Device, cap_addr: u8) -> (r:
    MSICapability)
    requires
        c.wf(),
        cap_addr <= 0xe8,
    ensures r == spec_read_msi_capability(c, dev, cap_addr),
{
    let header = MSICapabilityHeader(read_conf_reg(c, dev, cap_addr));
    let msg_addr = read_conf_reg(c, dev, cap_addr + 4);

    let mut msg_upper_addr: u32 = 0;
    let mut msg_data_addr: u8 = cap_addr + 8;
    if header.addr_64_capable() {
        msg_upper_addr = read_conf_reg(c, dev, cap_addr + 8);
        msg_data_addr = cap_addr + 12;
    }

    let msg_data = read_conf_reg(c, dev, msg_data_addr);

    let mut mask_bits: u32 = 0;
    let mut pending_bits: u32 = 0;
    if header.per_vector_mask_capable() {
        mask_bits = read_conf_reg(c, dev, msg_data_addr + 4);
        pending_bits = read_conf_reg(c, dev, msg_data_addr + 8);
    }

    MSICapability { header, msg_addr, msg_upper_addr, msg_data, mask_bits, pending_bits }
}

/// Writes the MSI capability block back in the same conditional field
/// order a read would use under `msi_cap`'s header.
pub fn write_msi_capability<C: ConfigAccess>(
    c: &mut C,
    dev: &Device,
    cap_addr: u8,
    msi_cap: &MSICapability,
)
    requires
        old(c).wf(),
        cap_addr <= 0xe8,
    ensures
        final(c).wf(),
        forall|a: u32|
            is_config_address(a) ==> final(c).reg_at(a) == spec_msi_written_reg(
                old(c),
                dev,
                cap_addr,
                *msi_cap,
                a,
            ),
{
    write_conf_reg(c, dev, cap_addr, msi_cap.header.data());
    write_conf_reg(c, dev, cap_addr + 4, msi_cap.msg_addr);

    let mut msg_data_addr: u8 = cap_addr + 8;
    if msi_cap.header.addr_64_capable() {
        write_conf_reg(c, dev, cap_addr + 8, msi_cap.msg_upper_addr);
        msg_data_addr = cap_addr + 12;
    }

    write_conf_reg(c, dev, msg_data_addr, msi_cap.msg_data);

    if msi_cap.header.per_vector_mask_capable() {
        write_conf_reg(c, dev, msg_data_addr + 4, msi_cap.mask_bits);
        write_conf_reg(c, dev, msg_data_addr + 8, msi_cap.pending_bits);
    }
}


/// Mirror of the capability-list walk from `cap_addr` on: the last
/// MSI and MSI-X capability offsets seen, zero where none was.
pub open spec fn spec_find_capabilities<C: ConfigAccess>(
    c: &C,
    dev: &Device,
    cap_addr: u8,
    msi: u8,
    msix: u8,
    fuel: nat,
) -> (u8, u8)
    decreases fuel,
{
    if cap_addr == 0 || fuel == 0 {
        (msi, msix)
    } else {
        let h = c.reg_at(spec_make_address(dev.bus, dev.device, dev.function, cap_addr));
        let next = ((h >> 8) & 0xff) as u8;
        spec_find_capabilities(
            c,
            dev,
            next,
            if h & 0xff == CAPABILITY_MSI as u32 {
                cap_addr
            } else {
                msi
            },
            if h & 0xff == CAPABILITY_MSIX as u32 {
                cap_addr
            } else {
                msix
            },
            (fuel - 1) as nat,
        )
    }
}

/// Walks the capability list of `dev` and reports where its MSI and
/// MSI-X capabilities sit (zero: not present).
fn find_msi_capabilities<C: ConfigAccess>(c: &C, dev: &Device) -> (r: (u8, u8))
    requires c.wf(),
    ensures
        r == spec_find_capabilities(
            c,
            dev,
            (c.reg_at(spec_make_address(dev.bus, dev.device, dev.function, 0x34)) & 0xff) as u8,
            0,
            0,
            CAP_LIST_FUEL as nat,
        ),
{
    let head = read_conf_reg(c, dev, 0x34);
    proof {
        let v = head;
        assert(v & 0xff < 0x100) by (bit_vector);
    }
    let mut cap_addr: u8 = (head & 0xff) as u8;
    let mut msi_cap_addr: u8 = 0;
    let mut msix_cap_addr: u8 = 0;
    let mut fuel: usize = CAP_LIST_FUEL;
    let ghost orig = spec_find_capabilities(c, dev, cap_addr, 0, 0, CAP_LIST_FUEL as nat);
    while cap_addr != 0 && fuel > 0
        invariant
            c.wf(),
            orig == spec_find_capabilities(
                c,
                dev,
                cap_addr,
                msi_cap_addr,
                msix_cap_addr,
                fuel as nat,
            ),
        decreases fuel,
    {
        let header = read_conf_reg(c, dev, cap_addr);
        proof {
            let v = header;
            assert((v >> 8) & 0xff < 0x100 && v & 0xff < 0x100) by (bit_vector);
        }
        let cap_id: u8 = (header & 0xff) as u8;
        let next_ptr: u8 = ((header >> 8) & 0xff) as u8;
        if cap_id == CAPABILITY_MSI {
            msi_cap_addr = cap_addr;
        } else if cap_id == CAPABILITY_MSIX {
            msix_cap_addr = cap_addr;
        }
        cap_addr = next_ptr;
        fuel = fuel - 1;
    }
    (msi_cap_addr, msix_cap_addr)
}

/// The capability block [`configure_msi`] writes back: the read block
/// with the vector count clamped to the device's capability, the
/// enable bit set, and the message address and data replaced.
pub open spec fn spec_msi_transformed_cap<C: ConfigAccess>(
    c: &C,
    dev: &Device,
    cap_addr: u8,
    msg_addr: u32,
    msg_data: u32,
    num_vector_exponent: u32,
) -> MSICapability {
    let cap = spec_read_msi_capability(c, dev, cap_addr);
    let mmc = spec_header_multi_msg_capable(cap.header.0);
    let mme = if mmc as u32 <= num_vector_exponent {
        mmc
    } else {
        num_vector_exponent as u8
    };
    let h1 = (cap.header.0 & !0xe_0000u32) | ((mme as u32) << 17);
    let h2 = h1 | 0x1_0000u32;
    MSICapability {
        header: MSICapabilityHeader(h2),
        msg_addr,
        msg_data,
        ..cap
    }
}

/// The error [`configure_msi`] reports for this device, `None` where
/// configuration succeeds: no MSI capability at all, an MSI-X-only
/// device, or an MSI capability whose offset is unusable (unaligned or
/// too close to the end of configuration space to hold the block).
pub open spec fn spec_msi_config_error<C: ConfigAccess>(c: &C, dev: &Device) -> Option<
    KernelError,
> {
    let found = spec_find_capabilities(
        c,
        dev,
        (c.reg_at(spec_make_address(dev.bus, dev.device, dev.function, 0x34)) & 0xff) as u8,
        0,
        0,
        CAP_LIST_FUEL as nat,
    );
    if found.0 > 0 {
        if found.0 & 3 == 0 && found.0 <= 0xe8 {
            Option::None
        } else {
            Option::Some(KernelError::MalformedCapabilityList)
        }
    } else if found.1 > 0 {
        Option::Some(KernelError::MsixUnimplemented)
    } else {
        Option::Some(KernelError::NoMsiCapability)
    }
}

/// The register value at `a` after a successful [`configure_msi`].
pub open spec fn spec_msi_configured_reg<C: ConfigAccess>(
    c: &C,
    dev: &Device,
    msg_addr: u32,
    msg_data: u32,
    num_vector_exponent: u32,
    a: u32,
) -> u32 {
    let found = spec_find_capabilities(
        c,
        dev,
        (c.reg_at(spec_make_address(dev.bus, dev.device, dev.function, 0x34)) & 0xff) as u8,
        0,
        0,
        CAP_LIST_FUEL as nat,
    );
    spec_msi_written_reg(
        c,
        dev,
        found.0,
        spec_msi_transformed_cap(c, dev, found.0, msg_addr, msg_data, num_vector_exponent),
        a,
    )
}

/// Rewrites the MSI capability block at `cap_addr`: clamp the vector
/// count, set enable, store the message address and data.
fn configure_msi_register<C: ConfigAccess>(
    c: &mut C,
    dev: &Device,
    cap_addr: u8,
    msg_addr: u32,
    msg_data: u32,
    num_vector_exponent: u32,
) -> (r: KernelResult<()>)
    requires
        old(c).wf(),
        cap_addr & 3 == 0,
        cap_addr <= 0xe8,
    ensures
        final(c).wf(),
        r == KernelResult::<()>::Ok(()),
        forall|a: u32|
            is_config_address(a) ==> final(c).reg_at(a) == spec_msi_written_reg(
                old(c),
                dev,
                cap_addr,
                spec_msi_transformed_cap(old(c), dev, cap_addr, msg_addr, msg_data, num_vector_exponent),
                a,
            ),
{
    let mut msi_cap = read_msi_capability(c, dev, cap_addr);

    let mmc = msi_cap.header.multi_msg_capable();
    if (mmc as u32) <= num_vector_exponent {
        msi_cap.header.set_multi_msg_enable(mmc);
    } else {
        msi_cap.header.set_multi_msg_enable(num_vector_exponent as u8);
    }

    msi_cap.header.set_msi_enable(true);
    msi_cap.msg_addr = msg_addr;
    msi_cap.msg_data = msg_data;

    write_msi_capability(c, dev, cap_addr, &msi_cap);
    Ok(())
}

/// Routes the device's interrupt through MSI: finds the MSI capability
/// in the device's capability list and rewrites it with the given
/// message address and data. Reports exactly which of the three
/// failure modes of [`spec_msi_config_error`] applies, touching no
/// register in that case.
pub fn configure_msi<C: ConfigAccess>(
    c: &mut C,
    dev: &Device,
    msg_addr: u32,
    msg_data: u32,
    num_vector_exponent: u32,
) -> (r: KernelResult<()>)
    requires old(c).wf(),
    ensures
        final(c).wf(),
        match spec_msi_config_error(old(c), dev) {
            Option::Some(e) => r == KernelResult::<()>::Err(e) && *final(c) == *old(c),
            Option::None => r == KernelResult::<()>::Ok(()) && forall|a: u32|
                is_config_address(a) ==> final(c).reg_at(a) == spec_msi_configured_reg(
                    old(c),
                    dev,
                    msg_addr,
                    msg_data,
                    num_vector_exponent,
                    a,
                ),
        },
{
    let (msi_cap_addr, msix_cap_addr) = find_msi_capabilities(c, dev);
    if msi_cap_addr > 0 {
        if msi_cap_addr & 3 != 0 || msi_cap_addr > 0xe8 {
            return Err(KernelError::MalformedCapabilityList);
        }
        return configure_msi_register(c, dev, msi_cap_addr, msg_addr, msg_data, num_vector_exponent);
    } else if msix_cap_addr > 0 {
        return Err(KernelError::MsixUnimplemented);
    }
    Err(KernelError::NoMsiCapability)
}

/// The MSI message address that targets one processor: the fixed
/// 0xfee00000 window with the APIC identifier in bits 12..20.
pub open spec fn spec_msi_message_address(apic_id: u8) -> u32 {
    0xfee0_0000u32 | ((apic_id as u32) << 12)
}

/// The MSI message data word: delivery mode in bits 8..11, vector in
/// bits 0..8, and both level-trigger bits for level-triggered mode.
pub open spec fn spec_msi_message_data(
    trigger_mode: MSITriggerMode,
    delivery_mode: MSIDeliveryMode,
    vector: u8,
) -> u32 {
    let base = ((delivery_mode.0 as u32) << 8) | (vector as u32);
    if trigger_mode is Level {
        base | 0xc000
    } else {
        base
    }
}

/// Routes the device's MSI interrupt to the processor `apic_id` with
/// the given trigger mode, delivery mode and vector.
#[allow(clippy::too_many_arguments)]
pub fn configure_msi_fixed_destication<C: ConfigAccess>(
    c: &mut C,
    dev: &Device,
    apic_id: u8,
    trigger_mode: MSITriggerMode,
    delivery_mode: MSIDeliveryMode,
    vector: u8,
    num_vector_exponent: u32,
) -> (r: KernelResult<()>)
    requires old(c).wf(),
    ensures
        final(c).wf(),
        match spec_msi_config_error(old(c), dev) {
            Option::Some(e) => r == KernelResult::<()>::Err(e) && *final(c) == *old(c),
            Option::None => r == KernelResult::<()>::Ok(()) && forall|a: u32|
                is_config_address(a) ==> final(c).reg_at(a) == spec_msi_configured_reg(
                    old(c),
                    dev,
                    spec_msi_message_address(apic_id),
                    spec_msi_message_data(trigger_mode, delivery_mode, vector),
                    num_vector_exponent,
                    a,
                ),
        },
{
    let msg_addr: u32 = 0xfee0_0000u32 | ((apic_id as u32) << 12);
    let mut msg_data: u32 = ((delivery_mode.0 as u32) << 8) | (vector as u32);
    if matches!(trigger_mode, MSITriggerMode::Level) {
        msg_data = msg_data | 0xc000;
    }
    configure_msi(c, dev, msg_addr, msg_data, num_vector_exponent)
}

/// Distinct dword-aligned register offsets give distinct address
/// words.
proof fn lemma_offsets_distinct(dev: &Device, r1: u8, r2: u8)
    requires
        r1 & 3 == 0,
        r2 & 3 == 0,
        r1 != r2,
    ensures
        spec_make_address(dev.bus, dev.device, dev.function, r1) != spec_make_address(
            dev.bus,
            dev.device,
            dev.function,
            r2,
        ),
{
    if spec_make_address(dev.bus, dev.device, dev.function, r1) == spec_make_address(
        dev.bus,
        dev.device,
        dev.function,
        r2,
    ) {
        lemma_make_address_injective_reg(dev.bus, dev.device, dev.function, r1, r2);
    }
}

/// Writing a capability block and reading it back through the same
/// conditional layout reproduces every field bit for bit, the 64-bit
/// address and per-vector mask words included; fields the header does
/// not provide are zero on both sides.
pub proof fn lemma_msi_capability_round_trip<C: ConfigAccess>(
    c0: &C,
    c1: &C,
    dev: &Device,
    cap_addr: u8,
    cap: MSICapability,
)
    requires
        cap_addr & 3 == 0,
        cap_addr <= 0xe8,
        forall|a: u32|
            is_config_address(a) ==> c1.reg_at(a) == spec_msi_written_reg(c0, dev, cap_addr, cap, a),
        !spec_header_addr_64(cap.header.0) ==> cap.msg_upper_addr == 0,
        !spec_header_mask_capable(cap.header.0) ==> cap.mask_bits == 0 && cap.pending_bits == 0,
    ensures spec_read_msi_capability(c1, dev, cap_addr) == cap,
{
    let h = cap.header.0;
    let o0 = cap_addr;
    let o1 = (cap_addr + 4) as u8;
    let o2 = (cap_addr + 8) as u8;
    let data_off = spec_msi_data_offset(h, cap_addr);
    let o4 = (data_off + 4) as u8;
    let o5 = (data_off + 8) as u8;
    assert(cap_addr & 3 == 0 && cap_addr <= 0xe8 ==> (cap_addr + 4) as u8 & 3 == 0 && (cap_addr
        + 8) as u8 & 3 == 0 && (cap_addr + 12) as u8 & 3 == 0 && (cap_addr + 16) as u8 & 3 == 0
        && (cap_addr + 20) as u8 & 3 == 0) by (bit_vector);
    let b = dev.bus;
    let d = dev.device;
    let f = dev.function;
    assert forall|r1: u8, r2: u8|
        r1 & 3 == 0 && r2 & 3 == 0 && r1 != r2 implies #[trigger] spec_make_address(b, d, f, r1)
        != #[trigger] spec_make_address(b, d, f, r2) by {
        lemma_offsets_distinct(dev, r1, r2);
    }
    assert forall|o: u8| o & 3 == 0 implies is_config_address(#[trigger] spec_make_address(b, d, f, o)) by {
        crate::pci::lemma_make_address_valid(b, d, f, o);
    }
    assert(c1.reg_at(spec_make_address(b, d, f, o0)) == cap.header.0);
    assert(c1.reg_at(spec_make_address(b, d, f, o1)) == cap.msg_addr);
    if spec_header_addr_64(h) {
        assert(c1.reg_at(spec_make_address(b, d, f, o2)) == cap.msg_upper_addr);
    }
    assert(c1.reg_at(spec_make_address(b, d, f, data_off)) == cap.msg_data);
    if spec_header_mask_capable(h) {
        assert(c1.reg_at(spec_make_address(b, d, f, o4)) == cap.mask_bits);
        assert(c1.reg_at(spec_make_address(b, d, f, o5)) == cap.pending_bits);
    }
}

} // verus!
