//! The command engine: hardware descriptors and the polled submission of
//! one read command on slot 0.
//!
//! A command is four fixed-layout structures written into freshly allocated
//! pages — the command header, the command table, the host-to-device FIS
//! inside it, and one region descriptor for the data buffer — followed by
//! setting the command-issue bit and polling it until the controller clears
//! it or a fixed iteration budget runs out.  There is no timer this early,
//! so the budget is a spin count, not wall-clock time; and there is no
//! automatic retry.  The device's asynchronous behaviour enters as a value
//! (after how many polls the issue bit reads clear, and what the task-file
//! register then shows); the unverified front end polls the real register
//! with the same per-read decision function.

use vstd::prelude::*;

use crate::ahci::{DriveError, HbaPort};

verus! {

/// Transfer length of the one-sector read command, in bytes.
pub const SECTOR_BYTES: u32 = 512;

/// Size of the host-to-device FIS structure in bytes.
pub const FIS_REG_H2D_BYTES: u16 = 20;

/// Command header of slot 0: the FIS length, the region-descriptor count,
/// the transferred-byte counter, and the command-table address.
#[derive(Clone, Copy, Debug, PartialEq, Eq)]
pub struct CommandHeader {
    pub flags: u16,
    pub prdt_length: u16,
    pub prdbc: u32,
    pub ctba: u32,
    pub ctbau: u32,
    pub reserved: [u32; 4],
}

/// Host-to-device FIS: the command message the controller sends the drive.
#[derive(Clone, Copy, Debug, PartialEq, Eq)]
pub struct FisRegH2D {
    pub fis_type: u8,
    pub pm_port: u8,
    pub command: u8,
    pub featurel: u8,
    pub lba0: u8,
    pub lba1: u8,
    pub lba2: u8,
    pub device: u8,
    pub lba3: u8,
    pub lba4: u8,
    pub lba5: u8,
    pub featureh: u8,
    pub countl: u8,
    pub counth: u8,
    pub icc: u8,
    pub control: u8,
    pub reserved: [u8; 4],
}

/// One region descriptor: a contiguous physical buffer for the transfer.
/// Its byte-count field holds the transfer length minus one.
#[derive(Clone, Copy, Debug, PartialEq, Eq, Structural)]
pub struct PhysicalRegionDescriptor {
    pub data_base: u32,
    pub data_base_upper: u32,
    pub reserved: u32,
    pub byte_count: u32,
    pub flags: u32,
}

/// Command table: the FIS, the ATAPI command area, reserved space, and the
/// region descriptors (one in this design).
#[derive(Clone, Copy, Debug, PartialEq, Eq)]
pub struct CommandTable {
    pub command_fis: FisRegH2D,
    pub atapi: [u8; 16],
    pub reserved: [u8; 48],
    pub prdt_entry: [PhysicalRegionDescriptor; 1],
}

/// Builds the slot-0 command header: FIS length in 32-bit words, one region
/// descriptor, a cleared transferred-byte counter, and the table address in
/// its two halves.  The caller passes the address of a freshly allocated,
/// zeroed command-table page.
pub fn create_command_header(ctba: u32, ctbau: u32) -> (r: CommandHeader)
    ensures
        r.flags == ((FIS_REG_H2D_BYTES / 4) as u16) & 0x1F,
        r.flags == 5,
        r.prdt_length == 1,
        r.prdbc == 0,
        r.ctba == ctba,
        r.ctbau == ctbau,
        r.reserved == [0u32, 0u32, 0u32, 0u32],
{
    proof {
        assert((20u16 / 4) & 0x1F == 5u16) by (bit_vector);
    }
    CommandHeader {
        flags: (FIS_REG_H2D_BYTES / 4) & 0x1F,
        prdt_length: 1,
        prdbc: 0,
        ctba,
        ctbau,
        reserved: [0, 0, 0, 0],
    }
}

/// The host-to-device FIS of the one-sector read: register FIS type, the
/// command-selection bit, the read opcode, LBA 0 with the LBA-mode device
/// bit, and a sector count of one.  Extending to another address or count
/// parameterizes these fields; it does not change the structure.
pub open spec fn spec_read_fis() -> FisRegH2D {
    FisRegH2D {
        fis_type: 0x27,
        pm_port: 0x80,
        command: 0x25,
        featurel: 0,
        lba0: 0,
        lba1: 0,
        lba2: 0,
        device: 0x40,
        lba3: 0,
        lba4: 0,
        lba5: 0,
        featureh: 0,
        countl: 1,
        counth: 0,
        icc: 0,
        control: 0,
        reserved: [0u8, 0u8, 0u8, 0u8],
    }
}

/// Writes the one-sector-read FIS into the command table, touching nothing
/// else in it.
pub fn setup_command_table(table: &mut CommandTable)
    ensures
        final(table).command_fis == spec_read_fis(),
        final(table).atapi == old(table).atapi,
        final(table).reserved == old(table).reserved,
        final(table).prdt_entry == old(table).prdt_entry,
{
    table.command_fis = FisRegH2D {
        fis_type: 0x27,
        pm_port: 1u8 << 7,
        command: 0x25,
        featurel: 0,
        lba0: 0,
        lba1: 0,
        lba2: 0,
        device: 1u8 << 6,
        lba3: 0,
        lba4: 0,
        lba5: 0,
        featureh: 0,
        countl: 1,
        counth: 0,
        icc: 0,
        control: 0,
        reserved: [0, 0, 0, 0],
    };
    proof {
        assert(1u8 << 7 == 0x80u8 && 1u8 << 6 == 0x40u8) by (bit_vector);
    }
}

/// Fills the single region descriptor with the data buffer's address and
/// the transfer length, and resets the header to match: descriptor count
/// one, transferred-byte counter zero.  The descriptor's byte-count field
/// holds the transfer length minus one, and its flags set the
/// interrupt-on-completion bit.  The caller passes the address of a freshly
/// allocated, zeroed buffer page.
pub fn create_prdt_entry(
    table: &mut CommandTable,
    header: &mut CommandHeader,
    data_base: u32,
    data_base_upper: u32,
)
    ensures
        ({
            let prdt = final(table).prdt_entry[0];
            &&& prdt.data_base == data_base
            &&& prdt.data_base_upper == data_base_upper
            &&& prdt.reserved == 0
            &&& prdt.byte_count + 1 == SECTOR_BYTES
            &&& prdt.flags == (((SECTOR_BYTES - 1) as u32) & 0x3FFFFF) | 0x8000_0000
            &&& prdt.flags & 0x8000_0000 == 0x8000_0000
        }),
        final(table).command_fis == old(table).command_fis,
        final(table).atapi == old(table).atapi,
        final(table).reserved == old(table).reserved,
        *final(header) == (CommandHeader { prdt_length: 1, prdbc: 0, ..*old(header) }),
{
    table.prdt_entry[0] = PhysicalRegionDescriptor {
        data_base,
        data_base_upper,
        reserved: 0,
        byte_count: SECTOR_BYTES - 1,
        flags: ((SECTOR_BYTES - 1) & 0x3FFFFF) | (1u32 << 31),
    };

    header.prdt_length = 1;
    header.prdbc = 0;

    proof {
        assert(1u32 << 31 == 0x8000_0000u32) by (bit_vector);
        assert((511u32 & 0x3FFFFF) | 0x8000_0000 == 0x8000_01FFu32) by (bit_vector);
        assert(0x8000_01FFu32 & 0x8000_0000 == 0x8000_0000u32) by (bit_vector);
    }
}

/// Terminal state of one issued command.
#[derive(Clone, Copy, Debug, PartialEq, Eq, Structural)]
pub enum CommandOutcome {
    /// The controller cleared the issue bit and reported no error.
    Completed,
    /// The spin budget ran out with the issue bit still set.
    TimedOut,
    /// The controller cleared the issue bit but the task-file register
    /// carries an error or busy bit.
    ControllerError,
}

/// The device's asynchronous answer, as a value: whether the command-issue
/// bit ever reads clear, after how many polls it first does, and what the
/// task-file register shows from then on.
#[derive(Clone, Copy, Debug, PartialEq, Eq, Structural)]
pub struct SataDeviceModel {
    pub completes: bool,
    pub completion_step: u64,
    pub tfd: u32,
}

/// The issue bit reads clear at some poll within the budget.
pub open spec fn ci_clears_within(dev: SataDeviceModel, budget: u64) -> bool {
    dev.completes && dev.completion_step < budget
}

/// The task-file register reports an error: the error bit (0) or the
/// device-fault bit (7... the busy summary this driver checks) is set.
pub open spec fn tfd_reports_error(tfd: u32) -> bool {
    tfd & 0x88 != 0
}

/// What the modelled command-issue register reads at poll `k`: slot 0's bit
/// is clear exactly from the completion step on.
pub fn device_ci_read(dev: &SataDeviceModel, k: u64) -> (r: u32)
    ensures
        r == (if dev.completes && k >= dev.completion_step {
            0u32
        } else {
            1u32
        }),
{
    if dev.completes && k >= dev.completion_step {
        0
    } else {
        1
    }
}

/// One poll step of the real hardware loop: given a fresh read of the
/// command-issue register, the task-file register, and the remaining spin
/// budget, either the command's terminal state or the decision to keep
/// polling (`None`).
pub fn poll_decision(ci: u32, tfd: u32, spins_left: u64) -> (r: Option<CommandOutcome>)
    ensures
        ci & 1 == 0 && !tfd_reports_error(tfd) ==> r == Some(CommandOutcome::Completed),
        ci & 1 == 0 && tfd_reports_error(tfd) ==> r == Some(CommandOutcome::ControllerError),
        ci & 1 != 0 && spins_left == 0 ==> r == Some(CommandOutcome::TimedOut),
        ci & 1 != 0 && spins_left != 0 ==> r is None,
{
    if ci & 1 == 0 {
        if tfd & 0x88 != 0 {
            Some(CommandOutcome::ControllerError)
        } else {
            Some(CommandOutcome::Completed)
        }
    } else if spins_left == 0 {
        Some(CommandOutcome::TimedOut)
    } else {
        Option::None
    }
}

/// Issues the prepared command on slot 0 and polls it to a terminal state.
///
/// Starts the engine — clears the start bit, then sets FIS-receive-enable
/// and start — and sets the issue bit for slot 0; then polls up to
/// `spin_budget` times.  Reports `Completed` or `ControllerError` (by the
/// task-file error bits) when the issue bit clears within the budget, and
/// `TimedOut` — never `Completed` — when it does not.  No retry happens
/// here; the caller decides.
#[verifier::loop_isolation(false)]
pub fn issue_command(port: &mut HbaPort, dev: &SataDeviceModel, spin_budget: u64) -> (r:
    CommandOutcome)
    ensures
        final(port).cmd == old(port).cmd | 0x11,
        final(port).ci == 1,
        *final(port) == (HbaPort { cmd: final(port).cmd, ci: final(port).ci, ..*old(port) }),
        !ci_clears_within(*dev, spin_budget) ==> r == CommandOutcome::TimedOut,
        ci_clears_within(*dev, spin_budget) && !tfd_reports_error(dev.tfd) ==> r
            == CommandOutcome::Completed,
        ci_clears_within(*dev, spin_budget) && tfd_reports_error(dev.tfd) ==> r
            == CommandOutcome::ControllerError,
{
    // Start the command engine: stop, then FIS-receive enable, then start.
    port.cmd = port.cmd & !(1u32 << 0);
    port.cmd = port.cmd | (1u32 << 4);
    port.cmd = port.cmd | (1u32 << 0);
    // Issue the command on slot 0.
    port.ci = 1u32 << 0;

    proof {
        let c = old(port).cmd;
        assert(((c & !(1u32 << 0)) | (1u32 << 4)) | (1u32 << 0) == c | 0x11) by (bit_vector);
        assert(1u32 << 0 == 1u32) by (bit_vector);
    }

    let mut k: u64 = 0;
    while k < spin_budget
        invariant
            0 <= k <= spin_budget,
            !(dev.completes && dev.completion_step < k),
        decreases spin_budget - k,
    {
        let ci = device_ci_read(dev, k);
        proof {
            assert(0u32 & 1 == 0 && 1u32 & 1 == 1) by (bit_vector);
        }
        if ci & 1 == 0 {
            if dev.tfd & 0x88 != 0 {
                return CommandOutcome::ControllerError;
            }
            return CommandOutcome::Completed;
        }
        k += 1;
    }

    CommandOutcome::TimedOut
}

/// The diagnostic read-back of the prepared command: every field the
/// introspection path reports, decoded from the descriptors and the port.
/// This is a separate operation, not part of the submission path.
#[derive(Clone, Copy, Debug, PartialEq, Eq, Structural)]
pub struct IntegrityReport {
    /// FIS length in 32-bit words, from the header's low flag bits.
    pub fis_length_words: u16,
    /// Number of region descriptors the header declares.
    pub prdt_length: u16,
    /// Command-table address, both halves combined.
    pub table_address: u64,
    /// Data-buffer address, both halves combined.
    pub data_base: u64,
    /// Transfer length: the descriptor's byte-count field plus one.
    pub byte_count_plus_one: u64,
    /// Whether the descriptor's interrupt-on-completion bit is set.
    pub ioc_flag_set: bool,
    /// The port's link status (low nibble of its SATA status register).
    pub det: u32,
}

/// Decodes the prepared command and the port state into the diagnostic
/// report.
pub fn check_integrity(header: &CommandHeader, table: &CommandTable, port: &HbaPort) -> (r:
    IntegrityReport)
    ensures
        r.fis_length_words == header.flags & 0x1F,
        r.prdt_length == header.prdt_length,
        r.table_address == header.ctba + header.ctbau * 0x1_0000_0000,
        r.data_base == table.prdt_entry[0].data_base + table.prdt_entry[0].data_base_upper
            * 0x1_0000_0000,
        r.byte_count_plus_one == table.prdt_entry[0].byte_count + 1,
        r.ioc_flag_set == (table.prdt_entry[0].flags & 0x8000_0000 == 0x8000_0000),
        r.det == port.ssts & 0xF,
{
    let prdt = &table.prdt_entry[0];
    proof {
        assert(1u32 << 31 == 0x8000_0000u32) by (bit_vector);
    }
    IntegrityReport {
        fis_length_words: header.flags & 0x1F,
        prdt_length: header.prdt_length,
        table_address: header.ctba as u64 + (header.ctbau as u64) * 0x1_0000_0000,
        data_base: prdt.data_base as u64 + (prdt.data_base_upper as u64) * 0x1_0000_0000,
        byte_count_plus_one: prdt.byte_count as u64 + 1,
        ioc_flag_set: (prdt.flags & (1u32 << 31)) == 1u32 << 31,
        det: port.ssts & 0xF,
    }
}

/// The first sixteen bytes of the transferred data buffer: what the
/// diagnostic path inspects after a read completes.
pub fn read_data_buffer(buffer: &Vec<u8>) -> (r: Vec<u8>)
    requires
        buffer.len() >= 16,
    ensures
        r@ == buffer@.subrange(0, 16),
{
    let mut out: Vec<u8> = Vec::new();
    let mut i: usize = 0;
    while i < 16
        invariant
            0 <= i <= 16,
            buffer@.len() >= 16,
            out@ == buffer@.subrange(0, i as int),
        decreases 16 - i,
    {
        out.push(buffer[i]);
        proof {
            assert(out@ =~= buffer@.subrange(0, i + 1));
        }
        i += 1;
    }
    out
}

/// Issues the prepared read and reports it as a typed result: success when
/// the issue bit cleared within the budget with a clean task-file register,
/// a timeout when the budget ran out, and a controller error otherwise.
pub fn issue_read(port: &mut HbaPort, dev: &SataDeviceModel, spin_budget: u64) -> (r: Result<
    (),
    DriveError,
>)
    ensures
        final(port).cmd == old(port).cmd | 0x11,
        final(port).ci == 1,
        *final(port) == (HbaPort { cmd: final(port).cmd, ci: final(port).ci, ..*old(port) }),
        r is Ok <==> (ci_clears_within(*dev, spin_budget) && !tfd_reports_error(dev.tfd)),
        !ci_clears_within(*dev, spin_budget) ==> r == Err::<(), DriveError>(
            DriveError::CommandTimeout,
        ),
        ci_clears_within(*dev, spin_budget) && tfd_reports_error(dev.tfd) ==> r == Err::<
            (),
            DriveError,
        >(DriveError::ControllerReportedError),
{
    match issue_command(port, dev, spin_budget) {
        CommandOutcome::Completed => Ok(()),
        CommandOutcome::TimedOut => Err(DriveError::CommandTimeout),
        CommandOutcome::ControllerError => Err(DriveError::ControllerReportedError),
    }
}

} // verus!
