//! SATA host-controller discovery and port classification.
//!
//! The controller exposes a generic register block at its MMIO base and one
//! register block per port at `base + 0x100 + 0x80 * index`.  Every hardware
//! access is an individually ordered, uncached read performed by the
//! unverified front end; here the register file is a value — a word-indexed
//! snapshot of the controller's registers — and the functions decode it.
//! Port classification is strict: a port whose link status or
//! power-management state reads zero carries no device, whatever its
//! signature says; an unknown signature is never guessed.

use vstd::prelude::*;

use crate::pci::{pci_read_config, spec_read_config, PciConfigSpace};

verus! {

/// Byte offset of the first per-port register block from the MMIO base.
pub const PORT_BLOCK_OFFSET: u32 = 0x100;

/// Byte stride between consecutive per-port register blocks.
pub const PORT_BLOCK_STRIDE: u32 = 0x80;

/// Number of 32-bit words the register-file snapshot must hold to cover the
/// generic block and all 32 port blocks.
pub const HBA_REGS_WORDS: usize = 1088;

/// Generic registers of the controller, plus one decoded register block per
/// port slot (32 slots; only the ports whose bit is set in `pi` are
/// implemented).
pub struct HbaMem {
    pub cap: u32,
    pub ghc: u32,
    pub is: u32,
    /// Bitmask of implemented ports.
    pub pi: u32,
    pub vs: u32,
    pub ccc_ctl: u32,
    pub ccc_pts: u32,
    pub em_loc: u32,
    pub em_ctl: u32,
    pub cap2: u32,
    pub bohc: u32,
    pub ports: Vec<HbaPort>,
}

/// The register block of one port: seventeen consecutive 32-bit registers.
#[derive(Clone, Copy, Debug, PartialEq, Eq, Structural)]
pub struct HbaPort {
    pub clb: u32,
    pub clbu: u32,
    pub fb: u32,
    pub fbu: u32,
    pub is: u32,
    pub ie: u32,
    pub cmd: u32,
    pub reserved0: u32,
    pub tfd: u32,
    pub sig: u32,
    pub ssts: u32,
    pub sctl: u32,
    pub serr: u32,
    pub sact: u32,
    pub ci: u32,
    pub sntf: u32,
    pub fbs: u32,
}

/// What is attached to a port.  `NoDevice` covers an inactive link, an
/// inactive power-management state, and any signature this driver does not
/// know — an unknown signature is never coerced to a known device type.
#[derive(Clone, Copy, Debug, PartialEq, Eq, Structural)]
pub enum PortType {
    NoDevice,
    Sata,
    Satapi,
    EnclosureMgmtBridge,
    PortMultiplier,
}

/// A word-indexed snapshot of one controller's register file, starting at
/// its MMIO base.  The unverified front end fills it with volatile reads.
pub struct HbaMmio {
    pub regs: Vec<u32>,
}

/// The snapshot covers the generic block and all 32 port blocks.
pub open spec fn hba_mmio_wf(m: HbaMmio) -> bool {
    m.regs@.len() >= HBA_REGS_WORDS
}

/// Word index of the first register of port `index`.
pub open spec fn port_word_base(index: int) -> int {
    0x40 + 0x20 * index
}

/// The decoded register block of port `index` in the snapshot.
pub open spec fn spec_hba_port(regs: Seq<u32>, index: int) -> HbaPort {
    let b = port_word_base(index);
    HbaPort {
        clb: regs[b],
        clbu: regs[b + 1],
        fb: regs[b + 2],
        fbu: regs[b + 3],
        is: regs[b + 4],
        ie: regs[b + 5],
        cmd: regs[b + 6],
        reserved0: regs[b + 7],
        tfd: regs[b + 8],
        sig: regs[b + 9],
        ssts: regs[b + 10],
        sctl: regs[b + 11],
        serr: regs[b + 12],
        sact: regs[b + 13],
        ci: regs[b + 14],
        sntf: regs[b + 15],
        fbs: regs[b + 16],
    }
}

/// The decoded controller: the generic block, read from the first eleven
/// words, and all 32 port blocks.
pub open spec fn hba_mem_wf(h: HbaMem, regs: Seq<u32>) -> bool {
    &&& h.cap == regs[0]
    &&& h.ghc == regs[1]
    &&& h.is == regs[2]
    &&& h.pi == regs[3]
    &&& h.vs == regs[4]
    &&& h.ccc_ctl == regs[5]
    &&& h.ccc_pts == regs[6]
    &&& h.em_loc == regs[7]
    &&& h.em_ctl == regs[8]
    &&& h.cap2 == regs[9]
    &&& h.bohc == regs[10]
    &&& h.ports@.len() == 32
    &&& forall|i: int| 0 <= i < 32 ==> h.ports@[i] == spec_hba_port(regs, i)
}

/// Byte offset of port `index`'s register block from the MMIO base.  Each
/// port has its own block; reading every port from the first block would
/// alias port 0's registers.
pub fn port_block_address(index: u32) -> (r: u32)
    requires
        index < 32,
    ensures
        r == PORT_BLOCK_OFFSET + PORT_BLOCK_STRIDE * index,
        r == 4 * port_word_base(index as int),
{
    PORT_BLOCK_OFFSET + PORT_BLOCK_STRIDE * index
}

/// Decodes the register block of port `index` from the snapshot.
pub fn read_hba_port(mmio: &HbaMmio, index: usize) -> (r: HbaPort)
    requires
        hba_mmio_wf(*mmio),
        index < 32,
    ensures
        r == spec_hba_port(mmio.regs@, index as int),
{
    let b: usize = 0x40 + 0x20 * index;
    HbaPort {
        clb: mmio.regs[b],
        clbu: mmio.regs[b + 1],
        fb: mmio.regs[b + 2],
        fbu: mmio.regs[b + 3],
        is: mmio.regs[b + 4],
        ie: mmio.regs[b + 5],
        cmd: mmio.regs[b + 6],
        reserved0: mmio.regs[b + 7],
        tfd: mmio.regs[b + 8],
        sig: mmio.regs[b + 9],
        ssts: mmio.regs[b + 10],
        sctl: mmio.regs[b + 11],
        serr: mmio.regs[b + 12],
        sact: mmio.regs[b + 13],
        ci: mmio.regs[b + 14],
        sntf: mmio.regs[b + 15],
        fbs: mmio.regs[b + 16],
    }
}

/// Decodes the whole controller from the snapshot: the generic block and
/// every port block, each at its own indexed offset.
pub fn read_hba_mem(mmio: &HbaMmio) -> (h: HbaMem)
    requires
        hba_mmio_wf(*mmio),
    ensures
        hba_mem_wf(h, mmio.regs@),
{
    let mut ports: Vec<HbaPort> = Vec::new();
    let mut i: usize = 0;
    while i < 32
        invariant
            hba_mmio_wf(*mmio),
            0 <= i <= 32,
            ports@.len() == i,
            forall|t: int| 0 <= t < i ==> ports@[t] == spec_hba_port(mmio.regs@, t),
        decreases 32 - i,
    {
        let port = read_hba_port(mmio, i);
        ports.push(port);
        i += 1;
    }

    HbaMem {
        cap: mmio.regs[0],
        ghc: mmio.regs[1],
        is: mmio.regs[2],
        pi: mmio.regs[3],
        vs: mmio.regs[4],
        ccc_ctl: mmio.regs[5],
        ccc_pts: mmio.regs[6],
        em_loc: mmio.regs[7],
        em_ctl: mmio.regs[8],
        cap2: mmio.regs[9],
        bohc: mmio.regs[10],
        ports,
    }
}

/// Number of set bits among the low `n` bits of `x`.
pub open spec fn ones_below(x: u32, n: nat) -> nat
    decreases n,
{
    if n == 0 {
        0
    } else {
        ones_below(x, (n - 1) as nat) + (if (x >> ((n - 1) as u32)) & 1 == 1 {
            1nat
        } else {
            0nat
        })
    }
}

/// Number of set bits of `x`: how many ports an implemented-ports bitmask
/// declares.
pub open spec fn pop_count(x: u32) -> nat {
    ones_below(x, 32)
}

/// Counts the implemented ports: the population count of the bitmask.
#[verifier::loop_isolation(false)]
pub fn count_implemented_ports(pi: u32) -> (r: u32)
    ensures
        r == pop_count(pi),
{
    let mut count: u32 = 0;
    let mut n: u32 = 0;
    while n < 32
        invariant
            0 <= n <= 32,
            count == ones_below(pi, n as nat),
            count <= n,
        decreases 32 - n,
    {
        let bit = (pi >> n) & 1;
        proof {
            assert((pi >> n) & 1 == 0 || (pi >> n) & 1 == 1) by (bit_vector);
        }
        count += bit;
        n += 1;
    }
    count
}

/// Bit `i` of the implemented-ports bitmask is set.
pub open spec fn port_implemented(pi: u32, i: int) -> bool {
    (pi >> (i as u32)) & 1 == 1
}

/// The device type a port's registers announce: no device when the link
/// status (`det`, low nibble of `ssts`) or the power-management state
/// (`ipm`, second nibble) reads zero; otherwise the type named by the
/// signature, and no device for a signature this driver does not know.
pub open spec fn classify_port(ssts: u32, sig: u32) -> PortType {
    let ipm = (ssts >> 8) & 0x0F;
    let det = ssts & 0x0F;
    if det == 0 || ipm == 0 {
        PortType::NoDevice
    } else if sig == 0x00000101 {
        PortType::Sata
    } else if sig == 0xEB140101 {
        PortType::Satapi
    } else if sig == 0xC33C0101 {
        PortType::EnclosureMgmtBridge
    } else if sig == 0x96690101 {
        PortType::PortMultiplier
    } else {
        PortType::NoDevice
    }
}

/// Classifies the device attached to port `index`.
pub fn ahci_probe_port_type(hba_mem: &HbaMem, index: usize) -> (r: PortType)
    requires
        index < hba_mem.ports@.len(),
    ensures
        r == classify_port(hba_mem.ports@[index as int].ssts, hba_mem.ports@[index as int].sig),
{
    let port = &hba_mem.ports[index];

    let ssts = port.ssts;
    let ipm = (ssts >> 8) & 0x0F;
    let det = ssts & 0x0F;

    if det == 0 || ipm == 0 {
        return PortType::NoDevice;
    }

    match port.sig {
        0x00000101 => PortType::Sata,
        0xEB140101 => PortType::Satapi,
        0xC33C0101 => PortType::EnclosureMgmtBridge,
        0x96690101 => PortType::PortMultiplier,
        _ => PortType::NoDevice,
    }
}

/// Finds the lowest-numbered implemented port with a SATA drive attached.
///
/// Returns the first port index whose implemented bit is set and whose
/// registers classify as SATA; `None` exactly when no implemented port
/// does.
#[verifier::loop_isolation(false)]
pub fn find_ahci_device(hba: &HbaMem) -> (r: Option<usize>)
    requires
        hba.ports@.len() == 32,
    ensures
        r is Some ==> {
            let i = r->0 as int;
            &&& 0 <= i < 32
            &&& port_implemented(hba.pi, i)
            &&& classify_port(hba.ports@[i].ssts, hba.ports@[i].sig) == PortType::Sata
            &&& forall|j: int|
                0 <= j < i && #[trigger] port_implemented(hba.pi, j) ==> classify_port(
                    hba.ports@[j].ssts,
                    hba.ports@[j].sig,
                ) != PortType::Sata
        },
        r is None <==> (forall|j: int|
            0 <= j < 32 && #[trigger] port_implemented(hba.pi, j) ==> classify_port(
                hba.ports@[j].ssts,
                hba.ports@[j].sig,
            ) != PortType::Sata),
{
    let implemented = hba.pi;

    let mut i: usize = 0;
    while i < 32
        invariant
            0 <= i <= 32,
            forall|j: int|
                0 <= j < i && #[trigger] port_implemented(hba.pi, j) ==> classify_port(
                    hba.ports@[j].ssts,
                    hba.ports@[j].sig,
                ) != PortType::Sata,
        decreases 32 - i,
    {
        let bit = (implemented >> (i as u32)) & 1;
        proof {
            let n = i as u32;
            assert((implemented >> n) & 1 == 0 || (implemented >> n) & 1 == 1) by (bit_vector);
        }
        if bit == 0 {
            i += 1;
            continue ;
        }

        let port_type = ahci_probe_port_type(&hba, i);
        if let PortType::Sata = port_type {
            proof {
                assert(port_implemented(hba.pi, i as int));
                assert(classify_port(hba.ports@[i as int].ssts, hba.ports@[i as int].sig)
                    == PortType::Sata);
            }
            return Some(i);
        }
        i += 1;
    }

    None
}

/// The MMIO base announced by the controller's fifth base-address register:
/// the register value with its low four flag bits cleared.
pub fn read_bar5(space: &PciConfigSpace, bus: u8, device: u8, function: u8) -> (r: u32)
    ensures
        r == spec_read_config(space.devices@, bus, device, function, 0x24) & 0xFFFFFFF0,
{
    let bar5 = pci_read_config(space, bus, device, function, 0x24);
    bar5 & 0xFFFFFFF0
}

/// The class register names the one controller this driver speaks to:
/// class 0x01 (mass storage), subclass 0x06 (SATA), programming interface
/// 0x01 (AHCI).
pub open spec fn is_ahci_class_reg(class_info: u32) -> bool {
    &&& (class_info >> 24) & 0xFF == 0x01
    &&& (class_info >> 16) & 0xFF == 0x06
    &&& (class_info >> 8) & 0xFF == 0x01
}

/// A matching controller answers at some address of the full
/// bus/device/function space.
pub open spec fn ahci_present(ds: Seq<crate::pci::PciDeviceInfo>) -> bool {
    exists|b: int, d: int, f: int|
        0 <= b < 256 && 0 <= d < 32 && 0 <= f < 8 && is_ahci_class_reg(
            #[trigger] spec_read_config(ds, b as u8, d as u8, f as u8, 0x08),
        )
}

/// Scans the whole bus/device/function space, in address order, for the
/// first function whose class register names the SATA controller.
///
/// Returns its address exactly when one is present; a slot where no device
/// answers reads an all-ones class register and never matches.
#[verifier::loop_isolation(false)]
pub fn find_ahci_controller(space: &PciConfigSpace) -> (r: Option<(u8, u8, u8)>)
    ensures
        r is Some <==> ahci_present(space.devices@),
        r is Some ==> {
            let (bus, device, function) = r->0;
            &&& is_ahci_class_reg(
                spec_read_config(space.devices@, bus, device, function, 0x08),
            )
            &&& forall|b: int, d: int, f: int|
                0 <= b < 256 && 0 <= d < 32 && 0 <= f < 8 && (b < bus || (b == bus && d < device)
                    || (b == bus && d == device && f < function)) ==> !is_ahci_class_reg(
                    #[trigger] spec_read_config(space.devices@, b as u8, d as u8, f as u8, 0x08),
                )
        },
{
    let ghost ds = space.devices@;
    let mut bus: u16 = 0;
    while bus < 256
        invariant
            0 <= bus <= 256,
            forall|b: int, d: int, f: int|
                0 <= b < bus && 0 <= d < 32 && 0 <= f < 8 ==> !is_ahci_class_reg(
                    #[trigger] spec_read_config(ds, b as u8, d as u8, f as u8, 0x08),
                ),
        decreases 256 - bus,
    {
        let mut device: u8 = 0;
        while device < 32
            invariant
                0 <= bus < 256,
                0 <= device <= 32,
                forall|b: int, d: int, f: int|
                    0 <= b < bus && 0 <= d < 32 && 0 <= f < 8 ==> !is_ahci_class_reg(
                        #[trigger] spec_read_config(ds, b as u8, d as u8, f as u8, 0x08),
                    ),
                forall|d: int, f: int|
                    0 <= d < device && 0 <= f < 8 ==> !is_ahci_class_reg(
                        #[trigger] spec_read_config(ds, bus as u8, d as u8, f as u8, 0x08),
                    ),
            decreases 32 - device,
        {
            let mut function: u8 = 0;
            while function < 8
                invariant
                    0 <= bus < 256,
                    0 <= device < 32,
                    0 <= function <= 8,
                    forall|b: int, d: int, f: int|
                        0 <= b < bus && 0 <= d < 32 && 0 <= f < 8 ==> !is_ahci_class_reg(
                            #[trigger] spec_read_config(ds, b as u8, d as u8, f as u8, 0x08),
                        ),
                    forall|d: int, f: int|
                        0 <= d < device && 0 <= f < 8 ==> !is_ahci_class_reg(
                            #[trigger] spec_read_config(ds, bus as u8, d as u8, f as u8, 0x08),
                        ),
                    forall|f: int|
                        0 <= f < function ==> !is_ahci_class_reg(
                            #[trigger] spec_read_config(
                                ds,
                                bus as u8,
                                device as u8,
                                f as u8,
                                0x08,
                            ),
                        ),
                decreases 8 - function,
            {
                let class_info = pci_read_config(space, bus as u8, device, function, 0x08);
                let class = (class_info >> 24) & 0xFF;
                let subclass = (class_info >> 16) & 0xFF;
                let prog_if = (class_info >> 8) & 0xFF;

                if class == 0x01 && subclass == 0x06 && prog_if == 0x01 {
                    proof {
                        let b = bus as int;
                        let d = device as int;
                        let f = function as int;
                        assert(is_ahci_class_reg(
                            spec_read_config(ds, b as u8, d as u8, f as u8, 0x08),
                        ));
                        assert(0 <= b < 256 && 0 <= d < 32 && 0 <= f < 8);
                        assert(ahci_present(ds));
                    }
                    return Some((bus as u8, device, function));
                }
                function += 1;
            }
            device += 1;
        }
        bus += 1;
    }

    None
}

/// Scans the bus for the SATA controller and, where one answers, decodes
/// its register file: the generic block and every port block.  The register
/// snapshot is the one the front end takes at the MMIO base that
/// `read_bar5` announces for the discovered controller.
pub fn scan_pci_for_ahci(space: &PciConfigSpace, mmio: &HbaMmio) -> (r: Option<HbaMem>)
    requires
        hba_mmio_wf(*mmio),
    ensures
        r is Some <==> ahci_present(space.devices@),
        r is Some ==> hba_mem_wf(r->0, mmio.regs@),
{
    match find_ahci_controller(space) {
        Some(_) => Some(read_hba_mem(mmio)),
        Option::None => Option::None,
    }
}

/// Takes the port's command engine out of the started state: clears the
/// start bit (bit 0) and the FIS-receive-enable bit (bit 4) of the command
/// register, leaving every other register untouched.  The controller
/// acknowledges asynchronously: the caller polls `command_engine_stopped`
/// on fresh reads of the register until the running bits clear.
pub fn stop_command_engine(port: &mut HbaPort)
    ensures
        final(port).cmd == old(port).cmd & 0xFFFF_FFEE,
        *final(port) == (HbaPort { cmd: final(port).cmd, ..*old(port) }),
{
    port.cmd = port.cmd & !((1u32 << 0) | (1u32 << 4));
    proof {
        assert(!((1u32 << 0) | (1u32 << 4)) == 0xFFFF_FFEEu32) by (bit_vector);
    }
}

/// Whether a freshly read command register shows the engine fully stopped:
/// the command-list-running bit (15) and the FIS-receive-running bit (14)
/// both clear.
pub fn command_engine_stopped(cmd: u32) -> (r: bool)
    ensures
        r == (cmd & 0xC000 == 0),
{
    proof {
        assert(((1u32 << 15) | (1u32 << 14)) == 0xC000u32) by (bit_vector);
    }
    (cmd & ((1u32 << 15) | (1u32 << 14))) == 0
}

/// Points the port at its freshly allocated command-list and FIS-receive
/// pages: writes the two physical addresses, split into their low and high
/// 32-bit halves, and touches nothing else.  The pages themselves are
/// allocated and zeroed by the caller.
pub fn initialize_port(port: &mut HbaPort, clb: u64, fb: u64)
    ensures
        final(port).clb + (final(port).clbu as int) * 0x1_0000_0000 == clb,
        final(port).fb + (final(port).fbu as int) * 0x1_0000_0000 == fb,
        *final(port) == (HbaPort {
            clb: final(port).clb,
            clbu: final(port).clbu,
            fb: final(port).fb,
            fbu: final(port).fbu,
            ..*old(port)
        }),
{
    proof {
        assert(forall|a: u64|
            #[trigger] ((a & 0xFFFF_FFFF) as u32) as int + (((a >> 32) as u32) as int)
                * 0x1_0000_0000 == a) by (bit_vector);
        assert(clb & 0xFFFF_FFFF <= u32::MAX && (clb >> 32) <= u32::MAX && fb & 0xFFFF_FFFF
            <= u32::MAX && (fb >> 32) <= u32::MAX) by (bit_vector);
    }
    port.clb = (clb & 0xFFFF_FFFF) as u32;
    port.clbu = (clb >> 32) as u32;

    port.fb = (fb & 0xFFFF_FFFF) as u32;
    port.fbu = (fb >> 32) as u32;
}


/// Why the storage path is unavailable.  Discovery failures degrade
/// gracefully — the system continues without storage — while command
/// failures are returned to the caller, who may retry from the started
/// engine or give up.
#[derive(Clone, Copy, Debug, PartialEq, Eq, Structural)]
pub enum DriveError {
    ControllerNotFound,
    NoCompatibleDeviceFound,
    CommandTimeout,
    ControllerReportedError,
}

/// Scans the bus for the SATA controller and reports its address, or that
/// none is present.
pub fn discover_controller(space: &PciConfigSpace) -> (r: Result<(u8, u8, u8), DriveError>)
    ensures
        r is Ok <==> ahci_present(space.devices@),
        r is Err <==> r == Err::<(u8, u8, u8), DriveError>(DriveError::ControllerNotFound)
            && !ahci_present(space.devices@),
        r is Ok ==> is_ahci_class_reg(
            spec_read_config(space.devices@, r->Ok_0.0, r->Ok_0.1, r->Ok_0.2, 0x08),
        ),
{
    match find_ahci_controller(space) {
        Some(addr) => Ok(addr),
        Option::None => Err(DriveError::ControllerNotFound),
    }
}

/// Finds the drive on a discovered controller: the first implemented port
/// classified as SATA, or the absence of any compatible device.
pub fn find_drive(hba: &HbaMem) -> (r: Result<usize, DriveError>)
    requires
        hba.ports@.len() == 32,
    ensures
        r is Err <==> r == Err::<usize, DriveError>(DriveError::NoCompatibleDeviceFound) && (
        forall|j: int|
            0 <= j < 32 && #[trigger] port_implemented(hba.pi, j) ==> classify_port(
                hba.ports@[j].ssts,
                hba.ports@[j].sig,
            ) != PortType::Sata),
        r is Ok ==> {
            let i = r->Ok_0 as int;
            &&& 0 <= i < 32
            &&& port_implemented(hba.pi, i)
            &&& classify_port(hba.ports@[i].ssts, hba.ports@[i].sig) == PortType::Sata
        },
{
    match find_ahci_device(hba) {
        Some(i) => Ok(i),
        Option::None => Err(DriveError::NoCompatibleDeviceFound),
    }
}

} // verus!
