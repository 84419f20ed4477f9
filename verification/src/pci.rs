//! Bus enumeration over the configuration space.
//!
//! The bus is addressed by (bus, device, function) triples; each present
//! function answers 32-bit configuration registers at 4-byte-aligned
//! offsets.  The hardware access itself is two port operations (write the
//! configuration address, read the data port), performed by the unverified
//! front end; here the configuration space is a value — a table of present
//! functions and the three registers this system reads — and an absent slot
//! reads as all-ones, which is how the bus reports "no device" (vendor
//! 0xFFFF).

use vstd::prelude::*;

verus! {

/// The registers of one present function that this system reads: the
/// vendor/device register at offset 0x00, the class register at offset 0x08
/// and the fifth base-address register at offset 0x24.
#[derive(Clone, Copy, Debug, PartialEq, Eq, Structural)]
pub struct PciDeviceInfo {
    pub bus: u8,
    pub device: u8,
    pub function: u8,
    /// Register 0x00: device identifier in the high half, vendor in the low.
    pub vendor_device: u32,
    /// Register 0x08: class, subclass, programming interface, revision.
    pub class_reg: u32,
    /// Register 0x24: the base-address register holding the MMIO base.
    pub bar5: u32,
}

/// A configuration space: the functions that answer, in no particular
/// order.  A slot not listed reads as all-ones.
pub struct PciConfigSpace {
    pub devices: Vec<PciDeviceInfo>,
}

/// A present function never carries the all-ones vendor identifier, which
/// the bus reserves for "no device here".
pub open spec fn config_space_wf(ds: Seq<PciDeviceInfo>) -> bool {
    forall|k: int| 0 <= k < ds.len() ==> #[trigger] ds[k].vendor_device & 0xFFFF != 0xFFFF
}

/// The first listed function at the given address, searching from index
/// `k`, if any.
pub open spec fn find_device_from(
    ds: Seq<PciDeviceInfo>,
    bus: u8,
    device: u8,
    function: u8,
    k: int,
) -> Option<PciDeviceInfo>
    decreases ds.len() - k,
{
    if k < 0 || k >= ds.len() {
        None
    } else if ds[k].bus == bus && ds[k].device == device && ds[k].function == function {
        Some(ds[k])
    } else {
        find_device_from(ds, bus, device, function, k + 1)
    }
}

/// The first listed function at the given address, if any.
pub open spec fn find_device(ds: Seq<PciDeviceInfo>, bus: u8, device: u8, function: u8) -> Option<
    PciDeviceInfo,
> {
    find_device_from(ds, bus, device, function, 0)
}

/// The register a present function answers at the given offset (taken
/// modulo the 4-byte alignment the bus enforces): the three registers this
/// system reads, zero anywhere else.
pub open spec fn spec_device_register(d: PciDeviceInfo, offset: u8) -> u32 {
    let reg = offset & 0xFC;
    if reg == 0x00 {
        d.vendor_device
    } else if reg == 0x08 {
        d.class_reg
    } else if reg == 0x24 {
        d.bar5
    } else {
        0
    }
}

/// What a configuration read returns: the addressed function's register
/// where a function answers, all-ones where none does.
pub open spec fn spec_read_config(
    ds: Seq<PciDeviceInfo>,
    bus: u8,
    device: u8,
    function: u8,
    offset: u8,
) -> u32 {
    match find_device(ds, bus, device, function) {
        Option::None => 0xFFFF_FFFF,
        Option::Some(d) => spec_device_register(d, offset),
    }
}

/// Selects the register of one present function.
fn device_register(d: &PciDeviceInfo, offset: u8) -> (r: u32)
    ensures
        r == spec_device_register(*d, offset),
{
    let reg = offset & 0xFC;
    if reg == 0x00 {
        d.vendor_device
    } else if reg == 0x08 {
        d.class_reg
    } else if reg == 0x24 {
        d.bar5
    } else {
        0
    }
}

/// Reads one configuration register from the modelled space.
#[verifier::loop_isolation(false)]
pub fn pci_read_config(
    space: &PciConfigSpace,
    bus: u8,
    device: u8,
    function: u8,
    offset: u8,
) -> (r: u32)
    ensures
        r == spec_read_config(space.devices@, bus, device, function, offset),
{
    let ghost ds = space.devices@;
    let mut k: usize = 0;
    while k < space.devices.len()
        invariant
            0 <= k <= ds.len(),
            find_device(ds, bus, device, function) == find_device_from(
                ds,
                bus,
                device,
                function,
                k as int,
            ),
        decreases ds.len() - k,
    {
        let d = &space.devices[k];
        if d.bus == bus && d.device == device && d.function == function {
            proof {
                assert(find_device_from(ds, bus, device, function, k as int) == Some(
                    ds[k as int],
                ));
            }
            return device_register(d, offset);
        }
        proof {
            assert(find_device_from(ds, bus, device, function, k as int) == find_device_from(
                ds,
                bus,
                device,
                function,
                k as int + 1,
            ));
        }
        k += 1;
    }
    0xFFFF_FFFF
}

/// The 32-bit configuration address the bus protocol selects a register
/// with: the enable bit, then bus, device, function and the aligned offset.
pub open spec fn spec_config_address(bus: u8, device: u8, function: u8, offset: u8) -> u32 {
    (1u32 << 31) | ((bus as u32) << 16) | ((device as u32) << 11) | ((function as u32) << 8) | (
    (offset as u32) & 0xFC)
}

/// Builds the configuration address written to the address port before the
/// data port is read.  The unverified front end performs those two port
/// operations; the address layout is fixed here.
pub fn pci_config_address(bus: u8, device: u8, function: u8, offset: u8) -> (r: u32)
    ensures
        r == spec_config_address(bus, device, function, offset),
{
    (1u32 << 31) | ((bus as u32) << 16) | ((device as u32) << 11) | ((function as u32) << 8) | (
    (offset as u32) & 0xFC)
}

/// The devices visible on bus 0, function 0: one `(device, vendor,
/// device-identifier)` triple per slot whose vendor register does not read
/// all-ones, in slot order up to slot `n`.
pub open spec fn visible_devices_upto(ds: Seq<PciDeviceInfo>, n: nat) -> Seq<(u8, u16, u16)>
    decreases n,
{
    if n == 0 {
        Seq::empty()
    } else {
        let prev = visible_devices_upto(ds, (n - 1) as nat);
        let value = spec_read_config(ds, 0, (n - 1) as u8, 0, 0);
        let vendor_id = (value & 0xFFFF) as u16;
        let device_id = ((value >> 16) & 0xFFFF) as u16;
        if vendor_id == 0xFFFF {
            prev
        } else {
            prev.push((((n - 1) as u8), vendor_id, device_id))
        }
    }
}

/// Surveys bus 0: reads the vendor/device register of each of the 32 device
/// slots (function 0) and reports every slot that answers, skipping each
/// slot whose vendor identifier reads as the all-ones "no device" value.
#[verifier::loop_isolation(false)]
pub fn scan_pci_devices(space: &PciConfigSpace) -> (r: Vec<(u8, u16, u16)>)
    ensures
        r@ == visible_devices_upto(space.devices@, 32),
{
    let ghost ds = space.devices@;
    let mut out: Vec<(u8, u16, u16)> = Vec::new();
    let mut device: u8 = 0;
    while device < 32
        invariant
            0 <= device <= 32,
            out@ == visible_devices_upto(ds, device as nat),
        decreases 32 - device,
    {
        let value = pci_read_config(space, 0, device, 0, 0x0);
        let vendor_id = (value & 0xFFFF) as u16;
        let device_id = ((value >> 16) & 0xFFFF) as u16;

        if vendor_id != 0xFFFF {
            out.push((device, vendor_id, device_id));
        }
        proof {
            let n1 = (device + 1) as nat;
            assert(((n1 - 1) as u8) == device);
            assert(spec_read_config(ds, 0, (n1 - 1) as u8, 0, 0) == value);
            assert(vendor_id == (value & 0xFFFF) as u16);
            assert(device_id == ((value >> 16) & 0xFFFF) as u16);
            assert(out@ == visible_devices_upto(ds, n1));
        }
        device += 1;
    }
    out
}

} // verus!
