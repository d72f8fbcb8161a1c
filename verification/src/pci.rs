//! PCI configuration space: address encoding, bus enumeration, BARs.
//!
//! Every configuration register is named by a 32-bit address word —
//! bit 31 enable, bits 16..24 bus, 11..16 device, 8..11 function,
//! 2..8 register — and reached through an address/data port pair. The
//! [`ConfigAccess`] trait stands for that port pair: the library ships
//! a verified in-memory implementation, and the machine-facing shell
//! supplies one backed by the two I/O ports. The scan walks the
//! bus/device/function space depth first, records what it finds in a
//! fixed 32-slot registry, and follows PCI-to-PCI bridges (class code
//! 0x06, 0x04) into their secondary bus, with an explicit depth budget
//! so the walk provably terminates even on a malformed bus graph.

use vstd::prelude::*;

use crate::{KernelError, KernelResult};

verus! {

/// Slots in the device registry.
pub const REGISTRY_CAPACITY: usize = 32;

/// Bridge recursion budget: more buses than can exist.
pub const MAX_SCAN_DEPTH: usize = 256;

/// A well-formed address word: enable bit set, reserved bits 24..31
/// clear, register offset dword-aligned.
pub open spec fn is_config_address(addr: u32) -> bool {
    addr & 0xff00_0003 == 0x8000_0000
}

/// The address word for (bus, device, function, register).
pub open spec fn spec_make_address(bus: u8, device: u8, function: u8, reg_addr: u8) -> u32 {
    0x8000_0000u32 | ((bus as u32) << 16) | ((device as u32) << 11) | ((function as u32) << 8) | ((
    reg_addr as u32) & 0xfc)
}

/// Encodes a configuration-space address word. The register offset is
/// always forced to a multiple of four.
pub fn make_address(bus: u8, device: u8, function: u8, reg_addr: u8) -> (r: u32)
    ensures
        r == spec_make_address(bus, device, function, reg_addr),
        r & 3 == 0,
        is_config_address(r),
{
    let r = 0x8000_0000u32 | ((bus as u32) << 16) | ((device as u32) << 11) | ((function as u32)
        << 8) | ((reg_addr as u32) & 0xfc);
    proof {
        lemma_make_address_valid(bus, device, function, reg_addr);
    }
    r
}

/// Every encoded address word is well formed.
pub proof fn lemma_make_address_valid(bus: u8, device: u8, function: u8, reg_addr: u8)
    ensures
        spec_make_address(bus, device, function, reg_addr) & 3 == 0,
        is_config_address(spec_make_address(bus, device, function, reg_addr)),
{
    let b = bus as u32;
    let d = device as u32;
    let f = function as u32;
    let g = reg_addr as u32;
    assert(b < 0x100 && d < 0x100 && f < 0x100 && g < 0x100 ==> {
        let r = 0x8000_0000u32 | (b << 16) | (d << 11) | (f << 8) | (g & 0xfc);
        r & 3 == 0 && r & 0xff00_0003 == 0x8000_0000
    }) by (bit_vector);
}

/// For one (bus, device, function), distinct dword-aligned register
/// offsets encode distinct address words.
pub proof fn lemma_make_address_injective_reg(
    bus: u8,
    device: u8,
    function: u8,
    r1: u8,
    r2: u8,
)
    requires
        r1 & 3 == 0,
        r2 & 3 == 0,
        spec_make_address(bus, device, function, r1) == spec_make_address(
            bus,
            device,
            function,
            r2,
        ),
    ensures r1 == r2,
{
    let b = bus as u32;
    let d = device as u32;
    let f = function as u32;
    let x = r1 as u32;
    let y = r2 as u32;
    assert((x & 3 == 0 && y & 3 == 0 && x < 0x100 && y < 0x100 && (0x8000_0000u32 | (b << 16) | (d
        << 11) | (f << 8) | (x & 0xfc)) == (0x8000_0000u32 | (b << 16) | (d << 11) | (f << 8) | (y
        & 0xfc))) ==> x == y) by (bit_vector);
}

/// The two-port configuration-space protocol, as the scan sees it:
/// a total assignment of 32-bit values to well-formed address words.
/// The in-library [`SimulatedConfigSpace`] implements it verifiably;
/// the machine shell implements it over the real address/data ports.
pub trait ConfigAccess {
    /// The implementation's own invariant.
    spec fn wf(&self) -> bool;

    /// The value a read of `addr` returns.
    spec fn reg_at(&self, addr: u32) -> u32;

    /// Reads one configuration register.
    fn read(&self, addr: u32) -> (r: u32)
        requires
            self.wf(),
            is_config_address(addr),
        ensures r == self.reg_at(addr),
    ;

    /// Writes one configuration register.
    fn write(&mut self, addr: u32, value: u32)
        requires
            old(self).wf(),
            is_config_address(addr),
        ensures
            final(self).wf(),
            forall|a: u32|
                is_config_address(a) ==> final(self).reg_at(a) == if a == addr {
                    value
                } else {
                    old(self).reg_at(a)
                },
    ;
}

/// The dense index a well-formed address word maps to: its bits 2..24.
pub open spec fn config_index(addr: u32) -> int {
    ((addr >> 2) & 0x3f_ffff) as int
}

/// A configuration space held in memory, one dword per possible
/// address: the synthetic bus that tests and simulations run against.
/// Registers never written read as all-ones, which is what a machine
/// answers for an absent device.
pub struct SimulatedConfigSpace {
    regs: Vec<u32>,
}

impl SimulatedConfigSpace {
    /// A space where every register reads as 0xffff_ffff.
    pub fn new() -> (r: Self)
        ensures
            r.wf(),
            forall|a: u32| is_config_address(a) ==> r.reg_at(a) == 0xffff_ffffu32,
    {
        let mut regs: Vec<u32> = Vec::new();
        let mut i: usize = 0;
        while i < 0x40_0000
            invariant
                i <= 0x40_0000,
                regs@.len() == i,
                forall|k: int| 0 <= k < i ==> regs@[k] == 0xffff_ffffu32,
            decreases 0x40_0000 - i,
        {
            regs.push(0xffff_ffff);
            i = i + 1;
        }
        let r = SimulatedConfigSpace { regs };
        proof {
            assert forall|a: u32| is_config_address(a) implies r.reg_at(a) == 0xffff_ffffu32 by {
                assert((a >> 2) & 0x3f_ffff < 0x40_0000) by (bit_vector);
            }
        }
        r
    }
}

impl ConfigAccess for SimulatedConfigSpace {
    /// One slot per encodable address word.
    closed spec fn wf(&self) -> bool {
        self.regs@.len() == 0x40_0000
    }

    closed spec fn reg_at(&self, addr: u32) -> u32 {
        self.regs@[config_index(addr)]
    }

    fn read(&self, addr: u32) -> (r: u32) {
        proof {
            assert((addr >> 2) & 0x3f_ffff < 0x40_0000) by (bit_vector);
        }
        let idx: usize = ((addr >> 2) & 0x3f_ffff) as usize;
        self.regs[idx]
    }

    fn write(&mut self, addr: u32, value: u32) {
        proof {
            assert((addr >> 2) & 0x3f_ffff < 0x40_0000) by (bit_vector);
        }
        let idx: usize = ((addr >> 2) & 0x3f_ffff) as usize;
        self.regs.set(idx, value);
        proof {
            assert forall|a: u32|
                is_config_address(a) implies self.reg_at(a) == if a == addr {
                value
            } else {
                old(self).reg_at(a)
            } by {
                assert((a >> 2) & 0x3f_ffff < 0x40_0000) by (bit_vector);
                if a != addr {
                    assert((a & 0xff00_0003 == 0x8000_0000 && addr & 0xff00_0003 == 0x8000_0000
                        && (a >> 2) & 0x3f_ffff == (addr >> 2) & 0x3f_ffff) ==> a == addr)
                        by (bit_vector);
                }
            }
        }
    }
}

/// One discovered function on the bus.
#[derive(Debug, Clone, Copy, PartialEq, Eq)]
pub struct Device {
    pub bus: u8,
    pub device: u8,
    pub function: u8,
    pub header_type: u8,
    pub class_code: (u8, u8, u8),
}

/// The fixed-capacity registry the scan fills.
pub struct DeviceRegistry {
    devices: Vec<Device>,
}

impl DeviceRegistry {
    /// The recorded devices, in discovery order.
    pub closed spec fn view(&self) -> Seq<Device> {
        self.devices@
    }

    pub open spec fn wf(&self) -> bool {
        self@.len() <= REGISTRY_CAPACITY
    }

    /// An empty registry.
    pub fn new() -> (r: Self)
        ensures
            r.wf(),
            r@ == Seq::<Device>::empty(),
    {
        let r = DeviceRegistry { devices: Vec::new() };
        proof {
            assert(r@ =~= Seq::<Device>::empty());
        }
        r
    }

    /// How many devices the scan has recorded.
    pub fn num_devices(&self) -> (r: usize)
        ensures r == self@.len(),
    {
        self.devices.len()
    }

    /// Device `i`, in discovery order.
    pub fn get(&self, i: usize) -> (r: Device)
        requires i < self@.len(),
        ensures r == self@[i as int],
    {
        self.devices[i]
    }

    /// Records one device; a full registry refuses and stays as it is.
    pub fn add_device(&mut self, device: Device) -> (r: KernelResult<()>)
        requires old(self).wf(),
        ensures
            final(self).wf(),
            old(self)@.len() >= REGISTRY_CAPACITY ==> r == KernelResult::<()>::Err(
                KernelError::RegistryFull,
            ) && final(self)@ == old(self)@,
            old(self)@.len() < REGISTRY_CAPACITY ==> r == KernelResult::<()>::Ok(())
                && final(self)@ == old(self)@.push(device),
    {
        if self.devices.len() >= REGISTRY_CAPACITY {
            return Err(KernelError::RegistryFull);
        }
        self.devices.push(device);
        Ok(())
    }

    /// The first recorded device with the given class code, if any.
    pub fn find_by_class_code(&self, base: u8, sub: u8, interface: u8) -> (r: Option<Device>)
        ensures
            match r {
                Option::Some(d) => exists|i: int|
                    0 <= i < self@.len() && self@[i] == d && d.class_code == (base, sub, interface)
                        && forall|j: int|
                        0 <= j < i ==> (#[trigger] self@[j]).class_code != (base, sub, interface),
                Option::None => forall|i: int|
                    0 <= i < self@.len() ==> (#[trigger] self@[i]).class_code != (
                    base,
                    sub,
                    interface,
                ),
            },
    {
        let mut i: usize = 0;
        while i < self.devices.len()
            invariant
                i <= self@.len(),
                forall|j: int|
                    0 <= j < i ==> (#[trigger] self@[j]).class_code != (base, sub, interface),
            decreases self@.len() - i,
        {
            let d = self.devices[i];
            if d.class_code.0 == base && d.class_code.1 == sub && d.class_code.2 == interface {
                return Some(d);
            }
            i = i + 1;
        }
        None
    }
}

/// Low half of register 0: the vendor identifier, 0xffff where no
/// function answers.
pub open spec fn spec_vendor_id<C: ConfigAccess>(c: &C, bus: u8, device: u8, function: u8) -> u16 {
    c.reg_at(spec_make_address(bus, device, function, 0x00)) as u16
}

/// Byte 2 of register 0x0c: the header type, with the multi-function
/// flag in its top bit.
pub open spec fn spec_header_type<C: ConfigAccess>(c: &C, bus: u8, device: u8, function: u8) -> u8 {
    (c.reg_at(spec_make_address(bus, device, function, 0x0c)) >> 16) as u8
}

/// Bytes 3..1 of register 0x08: (base class, sub class, interface).
pub open spec fn spec_class_code<C: ConfigAccess>(c: &C, bus: u8, device: u8, function: u8) -> (
    u8,
    u8,
    u8,
) {
    let reg = c.reg_at(spec_make_address(bus, device, function, 0x08));
    ((reg >> 24) as u8, (reg >> 16) as u8, (reg >> 8) as u8)
}

/// Register 0x18 of a bridge: bus numbers, secondary in byte 1.
pub open spec fn spec_bus_numbers<C: ConfigAccess>(c: &C, bus: u8, device: u8, function: u8) -> u32 {
    c.reg_at(spec_make_address(bus, device, function, 0x18))
}

/// A header type whose multi-function bit (0x80) is clear.
pub open spec fn spec_is_single_function_device(header_type: u8) -> bool {
    header_type & 0x80 == 0
}

pub fn is_single_function_device(header_type: u8) -> (r: bool)
    ensures r == spec_is_single_function_device(header_type),
{
    (header_type & 0x80) == 0
}

/// Reads the configuration register at `reg_addr` of `dev`.
pub fn read_conf_reg<C: ConfigAccess>(c: &C, dev: &Device, reg_addr: u8) -> (r: u32)
    requires c.wf(),
    ensures r == c.reg_at(spec_make_address(dev.bus, dev.device, dev.function, reg_addr)),
{
    let addr = make_address(dev.bus, dev.device, dev.function, reg_addr);
    c.read(addr)
}

/// Writes the configuration register at `reg_addr` of `dev`.
pub fn write_conf_reg<C: ConfigAccess>(c: &mut C, dev: &Device, reg_addr: u8, value: u32)
    requires old(c).wf(),
    ensures
        final(c).wf(),
        forall|a: u32|
            is_config_address(a) ==> final(c).reg_at(a) == if a == spec_make_address(
                dev.bus,
                dev.device,
                dev.function,
                reg_addr,
            ) {
                value
            } else {
                old(c).reg_at(a)
            },
{
    let addr = make_address(dev.bus, dev.device, dev.function, reg_addr);
    c.write(addr, value)
}

fn read_vendor_id<C: ConfigAccess>(c: &C, bus: u8, device: u8, function: u8) -> (r: u16)
    requires c.wf(),
    ensures r == spec_vendor_id(c, bus, device, function),
{
    let addr = make_address(bus, device, function, 0x00);
    #[verifier::truncate] (c.read(addr) as u16)
}

/// The vendor identifier of `dev`: the low half of its register 0.
pub fn read_vendor_id_from_device<C: ConfigAccess>(c: &C, dev: &Device) -> (r: u16)
    requires c.wf(),
    ensures r == spec_vendor_id(c, dev.bus, dev.device, dev.function),
{
    read_vendor_id(c, dev.bus, dev.device, dev.function)
}

fn read_header_type<C: ConfigAccess>(c: &C, bus: u8, device: u8, function: u8) -> (r: u8)
    requires c.wf(),
    ensures r == spec_header_type(c, bus, device, function),
{
    let addr = make_address(bus, device, function, 0x0c);
    #[verifier::truncate] ((c.read(addr) >> 16) as u8)
}

/// Reads the three class-code bytes of (bus, device, function).
pub fn read_class_code<C: ConfigAccess>(c: &C, bus: u8, device: u8, function: u8) -> (r: (
    u8,
    u8,
    u8,
))
    requires c.wf(),
    ensures r == spec_class_code(c, bus, device, function),
{
    let addr = make_address(bus, device, function, 0x08);
    let reg = c.read(addr);
    (
        #[verifier::truncate] ((reg >> 24) as u8),
        #[verifier::truncate] ((reg >> 16) as u8),
        #[verifier::truncate] ((reg >> 8) as u8),
    )
}

fn read_bus_numbers<C: ConfigAccess>(c: &C, bus: u8, device: u8, function: u8) -> (r: u32)
    requires c.wf(),
    ensures r == spec_bus_numbers(c, bus, device, function),
{
    let addr = make_address(bus, device, function, 0x18);
    c.read(addr)
}


/// Mirror of one [`scan_function`] step: record the function, and
/// where its class code names a PCI-to-PCI bridge, descend into the
/// secondary bus with one unit of depth budget spent.
pub open spec fn spec_scan_function<C: ConfigAccess>(
    c: &C,
    bus: u8,
    device: u8,
    function: u8,
    devs: Seq<Device>,
    fuel: nat,
) -> (Seq<Device>, KernelResult<()>)
    decreases fuel, 0int, 0int,
{
    let header_type = spec_header_type(c, bus, device, function);
    let class_code = spec_class_code(c, bus, device, function);
    let dev = Device { bus, device, function, header_type, class_code };
    if devs.len() >= REGISTRY_CAPACITY {
        (devs, KernelResult::<()>::Err(KernelError::RegistryFull))
    } else {
        let devs2 = devs.push(dev);
        if class_code.0 == 0x06 && class_code.1 == 0x04 {
            if fuel == 0 {
                (devs2, KernelResult::<()>::Err(KernelError::ScanDepthExceeded))
            } else {
                let secondary = (spec_bus_numbers(c, bus, device, function) >> 8) as u8;
                spec_scan_bus(c, secondary, devs2, (fuel - 1) as nat)
            }
        } else {
            (devs2, KernelResult::<()>::Ok(()))
        }
    }
}

/// Mirror of a whole-bus scan: devices 0..32, skipping slots whose
/// vendor identifier reads as the absent marker 0xffff.
pub open spec fn spec_scan_bus<C: ConfigAccess>(c: &C, bus: u8, devs: Seq<Device>, fuel: nat) -> (
    Seq<Device>,
    KernelResult<()>,
)
    decreases fuel, 4int, 0int,
{
    spec_scan_bus_devs(c, bus, 0, devs, fuel)
}

/// Mirror of the bus scan from device slot `device` on.
pub open spec fn spec_scan_bus_devs<C: ConfigAccess>(
    c: &C,
    bus: u8,
    device: u8,
    devs: Seq<Device>,
    fuel: nat,
) -> (Seq<Device>, KernelResult<()>)
    decreases fuel, 3int, 32 - device,
{
    if device >= 32 {
        (devs, KernelResult::<()>::Ok(()))
    } else if spec_vendor_id(c, bus, device, 0) != 0xffff {
        let t = spec_scan_device(c, bus, device, devs, fuel);
        if t.1 is Err {
            t
        } else {
            spec_scan_bus_devs(c, bus, (device + 1) as u8, t.0, fuel)
        }
    } else {
        spec_scan_bus_devs(c, bus, (device + 1) as u8, devs, fuel)
    }
}

/// Mirror of one device slot: function 0 always, functions 1..8 only
/// when the header type's multi-function bit is set.
pub open spec fn spec_scan_device<C: ConfigAccess>(
    c: &C,
    bus: u8,
    device: u8,
    devs: Seq<Device>,
    fuel: nat,
) -> (Seq<Device>, KernelResult<()>)
    decreases fuel, 2int, 0int,
{
    let t = spec_scan_function(c, bus, device, 0, devs, fuel);
    if t.1 is Err {
        t
    } else if spec_is_single_function_device(spec_header_type(c, bus, device, 0)) {
        t
    } else {
        spec_scan_device_fns(c, bus, device, 1, t.0, fuel)
    }
}

/// Mirror of the extra-function walk from `function` on.
pub open spec fn spec_scan_device_fns<C: ConfigAccess>(
    c: &C,
    bus: u8,
    device: u8,
    function: u8,
    devs: Seq<Device>,
    fuel: nat,
) -> (Seq<Device>, KernelResult<()>)
    decreases fuel, 1int, 8 - function,
{
    if function >= 8 {
        (devs, KernelResult::<()>::Ok(()))
    } else if spec_vendor_id(c, bus, device, function) != 0xffff {
        let t = spec_scan_function(c, bus, device, function, devs, fuel);
        if t.1 is Err {
            t
        } else {
            spec_scan_device_fns(c, bus, device, (function + 1) as u8, t.0, fuel)
        }
    } else {
        spec_scan_device_fns(c, bus, device, (function + 1) as u8, devs, fuel)
    }
}

/// Mirror of the root-complex walk over functions 0..8 of bus 0,
/// device 0, scanning bus `function` for each present one.
pub open spec fn spec_scan_all_fns<C: ConfigAccess>(c: &C, function: u8, devs: Seq<Device>) -> (
    Seq<Device>,
    KernelResult<()>,
)
    decreases 8 - function,
{
    if function >= 8 {
        (devs, KernelResult::<()>::Ok(()))
    } else if spec_vendor_id(c, 0, 0, function) != 0xffff {
        let t = spec_scan_bus(c, function, devs, MAX_SCAN_DEPTH as nat);
        if t.1 is Err {
            t
        } else {
            spec_scan_all_fns(c, (function + 1) as u8, t.0)
        }
    } else {
        spec_scan_all_fns(c, (function + 1) as u8, devs)
    }
}

/// Mirror of [`scan_all_bus`]: bus 0 alone for a single-function host
/// bridge, else one bus per present function of the host bridge.
pub open spec fn spec_scan_all<C: ConfigAccess>(c: &C, devs: Seq<Device>) -> (
    Seq<Device>,
    KernelResult<()>,
) {
    if spec_is_single_function_device(spec_header_type(c, 0, 0, 0)) {
        spec_scan_bus(c, 0, devs, MAX_SCAN_DEPTH as nat)
    } else {
        spec_scan_all_fns(c, 0, devs)
    }
}

/// Records (bus, device, function) and, for a PCI-to-PCI bridge,
/// recurses into its secondary bus.
fn scan_function<C: ConfigAccess>(
    c: &C,
    registry: &mut DeviceRegistry,
    bus: u8,
    device: u8,
    function: u8,
    fuel: usize,
) -> (r: KernelResult<()>)
    requires
        c.wf(),
        old(registry).wf(),
    ensures
        final(registry).wf(),
        final(registry)@ == spec_scan_function(
            c,
            bus,
            device,
            function,
            old(registry)@,
            fuel as nat,
        ).0,
        r == spec_scan_function(c, bus, device, function, old(registry)@, fuel as nat).1,
    decreases fuel, 0int, 0int,
{
    let header_type = read_header_type(c, bus, device, function);
    let class_code = read_class_code(c, bus, device, function);

    let dev = Device { bus, device, function, header_type, class_code };

    let added = registry.add_device(dev);
    if added.is_err() {
        return added;
    }

    if class_code.0 == 0x06 && class_code.1 == 0x04 {
        if fuel == 0 {
            return Err(KernelError::ScanDepthExceeded);
        }
        let bus_numbers = read_bus_numbers(c, bus, device, function);
        let secondary = #[verifier::truncate] ((bus_numbers >> 8) as u8);
        return scan_bus_from(c, registry, secondary, 0, fuel - 1);
    }
    Ok(())
}

/// Scans devices `device..32` of `bus`.
fn scan_bus_from<C: ConfigAccess>(
    c: &C,
    registry: &mut DeviceRegistry,
    bus: u8,
    device: u8,
    fuel: usize,
) -> (r: KernelResult<()>)
    requires
        c.wf(),
        old(registry).wf(),
    ensures
        final(registry).wf(),
        final(registry)@ == spec_scan_bus_devs(c, bus, device, old(registry)@, fuel as nat).0,
        r == spec_scan_bus_devs(c, bus, device, old(registry)@, fuel as nat).1,
    decreases fuel, 3int, 32 - device,
{
    if device >= 32 {
        return Ok(());
    }
    if read_vendor_id(c, bus, device, 0) != 0xffff {
        let sub = scan_device(c, registry, bus, device, fuel);
        if sub.is_err() {
            return sub;
        }
    }
    scan_bus_from(c, registry, bus, device + 1, fuel)
}

/// Scans one device slot: function 0, then the other functions where
/// the slot is multi-function.
fn scan_device<C: ConfigAccess>(
    c: &C,
    registry: &mut DeviceRegistry,
    bus: u8,
    device: u8,
    fuel: usize,
) -> (r: KernelResult<()>)
    requires
        c.wf(),
        old(registry).wf(),
    ensures
        final(registry).wf(),
        final(registry)@ == spec_scan_device(c, bus, device, old(registry)@, fuel as nat).0,
        r == spec_scan_device(c, bus, device, old(registry)@, fuel as nat).1,
    decreases fuel, 2int, 0int,
{
    let first = scan_function(c, registry, bus, device, 0, fuel);
    if first.is_err() {
        return first;
    }

    if is_single_function_device(read_header_type(c, bus, device, 0)) {
        return first;
    }

    scan_device_fns_from(c, registry, bus, device, 1, fuel)
}

/// Scans functions `function..8` of a multi-function device slot.
fn scan_device_fns_from<C: ConfigAccess>(
    c: &C,
    registry: &mut DeviceRegistry,
    bus: u8,
    device: u8,
    function: u8,
    fuel: usize,
) -> (r: KernelResult<()>)
    requires
        c.wf(),
        old(registry).wf(),
    ensures
        final(registry).wf(),
        final(registry)@ == spec_scan_device_fns(
            c,
            bus,
            device,
            function,
            old(registry)@,
            fuel as nat,
        ).0,
        r == spec_scan_device_fns(c, bus, device, function, old(registry)@, fuel as nat).1,
    decreases fuel, 1int, 8 - function,
{
    if function >= 8 {
        return Ok(());
    }
    if read_vendor_id(c, bus, device, function) != 0xffff {
        let sub = scan_function(c, registry, bus, device, function, fuel);
        if sub.is_err() {
            return sub;
        }
    }
    scan_device_fns_from(c, registry, bus, device, function + 1, fuel)
}

/// The root-complex walk over functions 0..8 of (0, 0).
fn scan_all_fns_from<C: ConfigAccess>(c: &C, registry: &mut DeviceRegistry, function: u8) -> (r:
    KernelResult<()>)
    requires
        c.wf(),
        old(registry).wf(),
    ensures
        final(registry).wf(),
        final(registry)@ == spec_scan_all_fns(c, function, old(registry)@).0,
        r == spec_scan_all_fns(c, function, old(registry)@).1,
    decreases 8 - function,
{
    if function >= 8 {
        return Ok(());
    }
    if read_vendor_id(c, 0, 0, function) != 0xffff {
        let sub = scan_bus_from(c, registry, function, 0, MAX_SCAN_DEPTH);
        if sub.is_err() {
            return sub;
        }
    }
    scan_all_fns_from(c, registry, function + 1)
}

/// Depth-first scan of the whole configuration space: bus 0 when the
/// host bridge is single-function, else one bus per present host
/// bridge function; every discovered function lands in `registry`
/// exactly once per scan, and bridges are followed into their
/// secondary buses.
pub fn scan_all_bus<C: ConfigAccess>(c: &C, registry: &mut DeviceRegistry) -> (r: KernelResult<()>)
    requires
        c.wf(),
        old(registry).wf(),
    ensures
        final(registry).wf(),
        final(registry)@ == spec_scan_all(c, old(registry)@).0,
        r == spec_scan_all(c, old(registry)@).1,
{
    let header_type = read_header_type(c, 0, 0, 0);
    if is_single_function_device(header_type) {
        return scan_bus_from(c, registry, 0, 0, MAX_SCAN_DEPTH);
    }
    scan_all_fns_from(c, registry, 0)
}

/// Mirror of [`read_bar`].
pub open spec fn spec_read_bar<C: ConfigAccess>(
    c: &C,
    device: &Device,
    bar_index: u32,
) -> KernelResult<u64> {
    if bar_index >= 6 {
        KernelResult::<u64>::Err(KernelError::BarIndexOutOfRange)
    } else {
        let addr = (0x10 + 4 * bar_index) as u8;
        let bar = c.reg_at(spec_make_address(device.bus, device.device, device.function, addr));
        if bar & 2 == 0 {
            KernelResult::<u64>::Ok((bar & !0xfu32) as u64)
        } else if bar_index >= 5 {
            KernelResult::<u64>::Err(KernelError::BarIndexOutOfRange)
        } else {
            let upper = c.reg_at(
                spec_make_address(device.bus, device.device, device.function, (addr + 4) as u8),
            );
            KernelResult::<u64>::Ok(bar as u64 | ((upper as u64) << 32))
        }
    }
}

/// Reads BAR `bar_index` of `dev`. Bit 1 of the register selects the
/// 64-bit form, whose upper half sits in the next slot and which is
/// returned exactly as the two registers read; a 32-bit BAR never
/// touches the next slot and comes back with its low four type bits
/// masked off. BAR indexes run 0..6, and a 64-bit BAR cannot start in
/// the last slot.
pub fn read_bar<C: ConfigAccess>(c: &C, device: &Device, bar_index: u32) -> (r: KernelResult<u64>)
    requires c.wf(),
    ensures r == spec_read_bar(c, device, bar_index),
{
    if bar_index >= 6 {
        return Err(KernelError::BarIndexOutOfRange);
    }

    let addr = calc_bar_address(bar_index);
    let bar = read_conf_reg(c, device, addr);

    if (bar & 2) == 0 {
        return Ok((bar & !0xfu32) as u64);
    }

    if bar_index >= 5 {
        return Err(KernelError::BarIndexOutOfRange);
    }

    let bar_upper = read_conf_reg(c, device, addr + 4);
    Ok(bar as u64 | ((bar_upper as u64) << 32))
}

/// The register offset of BAR `bar_index`.
fn calc_bar_address(bar_index: u32) -> (r: u8)
    requires bar_index < 6,
    ensures r == 0x10 + 4 * bar_index,
{
    0x10u8 + 4 * (bar_index as u8)
}


/// A registry entry that tells the truth about the bus: its header
/// type and class code are exactly what the configuration space holds
/// at its own coordinates.
pub open spec fn spec_device_faithful<C: ConfigAccess>(c: &C, d: Device) -> bool {
    &&& d.header_type == spec_header_type(c, d.bus, d.device, d.function)
    &&& d.class_code == spec_class_code(c, d.bus, d.device, d.function)
}

/// What holds of every mirror step: entries already in the registry
/// stay where they are, and every entry the step appends is a
/// faithful snapshot of the bus.
pub open spec fn spec_scan_extends<C: ConfigAccess>(
    c: &C,
    devs: Seq<Device>,
    r: Seq<Device>,
) -> bool {
    &&& r.len() >= devs.len()
    &&& forall|i: int| 0 <= i < devs.len() ==> r[i] == devs[i]
    &&& forall|i: int| devs.len() <= i < r.len() ==> spec_device_faithful(c, #[trigger] r[i])
}

proof fn lemma_scan_function_extends<C: ConfigAccess>(
    c: &C,
    bus: u8,
    device: u8,
    function: u8,
    devs: Seq<Device>,
    fuel: nat,
)
    ensures spec_scan_extends(c, devs, spec_scan_function(c, bus, device, function, devs, fuel).0),
    decreases fuel, 0int, 0int,
{
    let class_code = spec_class_code(c, bus, device, function);
    if devs.len() >= REGISTRY_CAPACITY {
    } else {
        let header_type = spec_header_type(c, bus, device, function);
        let dev = Device { bus, device, function, header_type, class_code };
        let devs2 = devs.push(dev);
        assert(spec_device_faithful(c, dev));
        assert(spec_scan_extends(c, devs, devs2));
        if class_code.0 == 0x06 && class_code.1 == 0x04 {
            if fuel != 0 {
                let secondary = (spec_bus_numbers(c, bus, device, function) >> 8) as u8;
                lemma_scan_bus_devs_extends(c, secondary, 0, devs2, (fuel - 1) as nat);
            }
        }
    }
}

proof fn lemma_scan_bus_devs_extends<C: ConfigAccess>(
    c: &C,
    bus: u8,
    device: u8,
    devs: Seq<Device>,
    fuel: nat,
)
    ensures spec_scan_extends(c, devs, spec_scan_bus_devs(c, bus, device, devs, fuel).0),
    decreases fuel, 3int, 32 - device,
{
    if device >= 32 {
    } else if spec_vendor_id(c, bus, device, 0) != 0xffff {
        let t = spec_scan_device(c, bus, device, devs, fuel);
        lemma_scan_device_extends(c, bus, device, devs, fuel);
        if !(t.1 is Err) {
            lemma_scan_bus_devs_extends(c, bus, (device + 1) as u8, t.0, fuel);
        }
    } else {
        lemma_scan_bus_devs_extends(c, bus, (device + 1) as u8, devs, fuel);
    }
}

proof fn lemma_scan_device_extends<C: ConfigAccess>(
    c: &C,
    bus: u8,
    device: u8,
    devs: Seq<Device>,
    fuel: nat,
)
    ensures spec_scan_extends(c, devs, spec_scan_device(c, bus, device, devs, fuel).0),
    decreases fuel, 2int, 0int,
{
    let t = spec_scan_function(c, bus, device, 0, devs, fuel);
    lemma_scan_function_extends(c, bus, device, 0, devs, fuel);
    if !(t.1 is Err) && !spec_is_single_function_device(spec_header_type(c, bus, device, 0)) {
        lemma_scan_device_fns_extends(c, bus, device, 1, t.0, fuel);
    }
}

proof fn lemma_scan_device_fns_extends<C: ConfigAccess>(
    c: &C,
    bus: u8,
    device: u8,
    function: u8,
    devs: Seq<Device>,
    fuel: nat,
)
    ensures spec_scan_extends(c, devs, spec_scan_device_fns(c, bus, device, function, devs, fuel).0),
    decreases fuel, 1int, 8 - function,
{
    if function >= 8 {
    } else if spec_vendor_id(c, bus, device, function) != 0xffff {
        let t = spec_scan_function(c, bus, device, function, devs, fuel);
        lemma_scan_function_extends(c, bus, device, function, devs, fuel);
        if !(t.1 is Err) {
            lemma_scan_device_fns_extends(c, bus, device, (function + 1) as u8, t.0, fuel);
        }
    } else {
        lemma_scan_device_fns_extends(c, bus, device, (function + 1) as u8, devs, fuel);
    }
}

proof fn lemma_scan_all_fns_extends<C: ConfigAccess>(c: &C, function: u8, devs: Seq<Device>)
    ensures spec_scan_extends(c, devs, spec_scan_all_fns(c, function, devs).0),
    decreases 8 - function,
{
    if function >= 8 {
    } else if spec_vendor_id(c, 0, 0, function) != 0xffff {
        let t = spec_scan_bus(c, function, devs, MAX_SCAN_DEPTH as nat);
        lemma_scan_bus_devs_extends(c, function, 0, devs, MAX_SCAN_DEPTH as nat);
        if !(t.1 is Err) {
            lemma_scan_all_fns_extends(c, (function + 1) as u8, t.0);
        }
    } else {
        lemma_scan_all_fns_extends(c, (function + 1) as u8, devs);
    }
}

/// Registry soundness of the whole scan: whatever was in the registry
/// before the scan stays at its place, and every entry the scan adds
/// is a faithful snapshot of the configuration space — its header
/// type and class code are the bus's answers at the recorded
/// (bus, device, function).
pub proof fn lemma_scan_all_faithful<C: ConfigAccess>(c: &C, devs: Seq<Device>)
    ensures spec_scan_extends(c, devs, spec_scan_all(c, devs).0),
{
    if spec_is_single_function_device(spec_header_type(c, 0, 0, 0)) {
        lemma_scan_bus_devs_extends(c, 0, 0, devs, MAX_SCAN_DEPTH as nat);
    } else {
        lemma_scan_all_fns_extends(c, 0, devs);
    }
}

} // verus!
