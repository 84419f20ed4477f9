//! Bus enumeration, controller discovery and the command engine.

use boot_core::ahci::{
    ahci_probe_port_type, command_engine_stopped, count_implemented_ports, discover_controller,
    find_ahci_controller, find_ahci_device, find_drive, initialize_port, port_block_address,
    read_bar5, read_hba_mem, read_hba_port, scan_pci_for_ahci, stop_command_engine, DriveError,
    HbaMem, HbaMmio, HbaPort, PortType, HBA_REGS_WORDS,
};
use boot_core::cmd_management::{
    check_integrity, create_command_header, create_prdt_entry, device_ci_read, issue_command,
    issue_read, poll_decision, read_data_buffer, setup_command_table, CommandOutcome,
    CommandTable, FisRegH2D, PhysicalRegionDescriptor, SataDeviceModel,
};
use boot_core::page_heap::{allocate_page, zero_page, PageHeap, PAGE_HEAP_END, PAGE_HEAP_START};
use boot_core::pci::{
    pci_config_address, pci_read_config, scan_pci_devices, PciConfigSpace, PciDeviceInfo,
};
use boot_core::loader::MemWindow;

fn device(bus: u8, dev: u8, func: u8, vendor_device: u32, class_reg: u32, bar5: u32) -> PciDeviceInfo {
    PciDeviceInfo { bus, device: dev, function: func, vendor_device, class_reg, bar5 }
}

fn zero_port() -> HbaPort {
    HbaPort {
        clb: 0,
        clbu: 0,
        fb: 0,
        fbu: 0,
        is: 0,
        ie: 0,
        cmd: 0,
        reserved0: 0,
        tfd: 0,
        sig: 0,
        ssts: 0,
        sctl: 0,
        serr: 0,
        sact: 0,
        ci: 0,
        sntf: 0,
        fbs: 0,
    }
}

#[test]
fn config_address_layout_is_fixed() {
    assert_eq!(pci_config_address(0, 5, 0, 0x24), 0x8000_2824);
    assert_eq!(pci_config_address(1, 0, 2, 0x08), 0x8001_0208);
    // The low two offset bits are masked to the 4-byte alignment.
    assert_eq!(pci_config_address(0, 0, 0, 0x0B), 0x8000_0008);
}

#[test]
fn config_reads_answer_or_all_ones() {
    let space = PciConfigSpace {
        devices: vec![
            device(0, 3, 0, 0x1234_8086, 0x0106_0100, 0xFEB0_0004),
            device(2, 1, 1, 0x5678_1022, 0x0200_0000, 0),
        ],
    };
    assert_eq!(pci_read_config(&space, 0, 3, 0, 0x00), 0x1234_8086);
    assert_eq!(pci_read_config(&space, 0, 3, 0, 0x08), 0x0106_0100);
    assert_eq!(pci_read_config(&space, 0, 3, 0, 0x24), 0xFEB0_0004);
    assert_eq!(pci_read_config(&space, 0, 4, 0, 0x00), 0xFFFF_FFFF);
    assert_eq!(pci_read_config(&space, 2, 1, 1, 0x08), 0x0200_0000);
}

#[test]
fn bus_survey_skips_absent_and_all_ones_vendors() {
    let space = PciConfigSpace {
        devices: vec![
            device(0, 2, 0, 0xAAAA_8086, 0, 0),
            device(0, 7, 0, 0xABCD_FFFF, 0, 0), // vendor reads all-ones: skipped
            device(0, 9, 0, 0xBBBB_1022, 0, 0),
            device(1, 3, 0, 0xCCCC_10DE, 0, 0), // other bus: not surveyed
        ],
    };
    let seen = scan_pci_devices(&space);
    assert_eq!(seen, vec![(2u8, 0x8086u16, 0xAAAAu16), (9u8, 0x1022u16, 0xBBBBu16)]);
}

#[test]
fn enumeration_finds_unique_controller() {
    // A full 256 x 32 x 8 space with one SATA controller and noise around it.
    let space = PciConfigSpace {
        devices: vec![
            device(0, 0, 0, 0x1111_8086, 0x0600_0000, 0), // host bridge
            device(0, 2, 0, 0x2222_8086, 0x0300_0000, 0), // display
            device(3, 9, 1, 0x3333_8086, 0x0106_0100, 0xFEB0_0000), // the SATA controller
            device(7, 1, 0, 0x4444_8086, 0x0101_0100, 0), // other storage: wrong subclass
        ],
    };
    assert_eq!(find_ahci_controller(&space), Some((3, 9, 1)));
    assert_eq!(read_bar5(&space, 3, 9, 1), 0xFEB0_0000);

    let empty = PciConfigSpace { devices: vec![] };
    assert_eq!(find_ahci_controller(&empty), None);
}

#[test]
fn enumeration_reads_controller_registers() {
    let space = PciConfigSpace {
        devices: vec![device(0, 4, 0, 0x5555_8086, 0x0106_0100, 0xFEB0_0000)],
    };
    let mut regs = vec![0u32; HBA_REGS_WORDS];
    regs[0] = 0xC000_0001; // capability
    regs[1] = 0x8000_0000; // global control
    regs[3] = 0b101; // ports 0 and 2 implemented
    let mmio = HbaMmio { regs };

    let hba = scan_pci_for_ahci(&space, &mmio).unwrap();
    assert_eq!(hba.cap, 0xC000_0001);
    assert_eq!(hba.ghc, 0x8000_0000);
    assert_eq!(hba.pi, 0b101);
    assert_eq!(hba.ports.len(), 32);

    let none = PciConfigSpace { devices: vec![] };
    assert!(scan_pci_for_ahci(&none, &mmio).is_none());
}

#[test]
fn port_blocks_are_read_at_indexed_offsets() {
    assert_eq!(port_block_address(0), 0x100);
    assert_eq!(port_block_address(1), 0x180);
    assert_eq!(port_block_address(2), 0x200);

    let mut regs = vec![0u32; HBA_REGS_WORDS];
    // Give port 1 a distinctive signature and status.
    let base1 = (0x100 + 0x80) / 4;
    regs[base1 + 9] = 0x0000_0101; // signature
    regs[base1 + 10] = 0x0000_0103; // ssts: det 3, ipm 1
    let mmio = HbaMmio { regs };

    let p0 = read_hba_port(&mmio, 0);
    let p1 = read_hba_port(&mmio, 1);
    assert_eq!(p0.sig, 0);
    assert_eq!(p1.sig, 0x0000_0101);
    assert_eq!(p1.ssts, 0x0000_0103);

    let hba = read_hba_mem(&mmio);
    assert_eq!(hba.ports[1], p1);
}

#[test]
fn popcount_counts_implemented_ports() {
    assert_eq!(count_implemented_ports(0), 0);
    assert_eq!(count_implemented_ports(0b1011), 3);
    assert_eq!(count_implemented_ports(0xFFFF_FFFF), 32);
    assert_eq!(count_implemented_ports(1 << 31), 1);
}

#[test]
fn port_classification_follows_signature_and_link() {
    let mut ports = vec![zero_port(); 32];
    ports[0].ssts = 0x0103; // det 3, ipm 1
    ports[0].sig = 0x0000_0101;
    ports[1].ssts = 0x0000; // link down
    ports[1].sig = 0x0000_0101;
    ports[2].ssts = 0x0103;
    ports[2].sig = 0xEB14_0101;
    ports[3].ssts = 0x0103;
    ports[3].sig = 0xC33C_0101;
    ports[4].ssts = 0x0103;
    ports[4].sig = 0x9669_0101;
    ports[5].ssts = 0x0103;
    ports[5].sig = 0xDEAD_BEEF; // unknown signature
    ports[6].ssts = 0x0003; // ipm 0
    ports[6].sig = 0x0000_0101;

    let hba = HbaMem {
        cap: 0,
        ghc: 0,
        is: 0,
        pi: 0x7F,
        vs: 0,
        ccc_ctl: 0,
        ccc_pts: 0,
        em_loc: 0,
        em_ctl: 0,
        cap2: 0,
        bohc: 0,
        ports,
    };
    assert_eq!(ahci_probe_port_type(&hba, 0), PortType::Sata);
    assert_eq!(ahci_probe_port_type(&hba, 1), PortType::NoDevice);
    assert_eq!(ahci_probe_port_type(&hba, 2), PortType::Satapi);
    assert_eq!(ahci_probe_port_type(&hba, 3), PortType::EnclosureMgmtBridge);
    assert_eq!(ahci_probe_port_type(&hba, 4), PortType::PortMultiplier);
    assert_eq!(ahci_probe_port_type(&hba, 5), PortType::NoDevice);
    assert_eq!(ahci_probe_port_type(&hba, 6), PortType::NoDevice);
}

#[test]
fn drive_search_returns_first_implemented_sata_port() {
    let mut ports = vec![zero_port(); 32];
    // Port 1 looks like SATA but is not implemented; port 4 is the drive.
    ports[1].ssts = 0x0103;
    ports[1].sig = 0x0000_0101;
    ports[4].ssts = 0x0103;
    ports[4].sig = 0x0000_0101;
    let hba = HbaMem {
        cap: 0,
        ghc: 0,
        is: 0,
        pi: 0b1_0000 | 1, // ports 0 and 4
        vs: 0,
        ccc_ctl: 0,
        ccc_pts: 0,
        em_loc: 0,
        em_ctl: 0,
        cap2: 0,
        bohc: 0,
        ports,
    };
    assert_eq!(find_ahci_device(&hba), Some(4));

    let no_drive = HbaMem { pi: 0, ..hba };
    assert_eq!(find_ahci_device(&no_drive), None);
}

#[test]
fn stopping_the_engine_clears_start_and_receive_bits() {
    let mut port = zero_port();
    port.cmd = 0xFFFF_FFFF;
    stop_command_engine(&mut port);
    assert_eq!(port.cmd, 0xFFFF_FFEE);

    assert!(!command_engine_stopped(0x8000)); // command list still running
    assert!(!command_engine_stopped(0x4000)); // FIS receive still running
    assert!(command_engine_stopped(0x0001));
}

#[test]
fn port_initialization_splits_addresses() {
    let mut port = zero_port();
    port.cmd = 0x1234;
    initialize_port(&mut port, 0x0001_2345_6000, 0x9000);
    assert_eq!(port.clb, 0x2345_6000);
    assert_eq!(port.clbu, 0x1);
    assert_eq!(port.fb, 0x9000);
    assert_eq!(port.fbu, 0);
    assert_eq!(port.cmd, 0x1234); // untouched
}

#[test]
fn command_header_is_built_exactly() {
    let h = create_command_header(0xAAAA_B000, 0x1);
    assert_eq!(h.flags, 5); // 20-byte FIS, in 32-bit words
    assert_eq!(h.prdt_length, 1);
    assert_eq!(h.prdbc, 0);
    assert_eq!(h.ctba, 0xAAAA_B000);
    assert_eq!(h.ctbau, 0x1);
    assert_eq!(h.reserved, [0; 4]);
}

fn zero_table() -> CommandTable {
    CommandTable {
        command_fis: FisRegH2D {
            fis_type: 0,
            pm_port: 0,
            command: 0,
            featurel: 0,
            lba0: 0,
            lba1: 0,
            lba2: 0,
            device: 0,
            lba3: 0,
            lba4: 0,
            lba5: 0,
            featureh: 0,
            countl: 0,
            counth: 0,
            icc: 0,
            control: 0,
            reserved: [0; 4],
        },
        atapi: [0; 16],
        reserved: [0; 48],
        prdt_entry: [PhysicalRegionDescriptor {
            data_base: 0,
            data_base_upper: 0,
            reserved: 0,
            byte_count: 0,
            flags: 0,
        }],
    }
}

#[test]
fn command_table_carries_one_sector_read_fis() {
    let mut table = zero_table();
    setup_command_table(&mut table);
    let fis = &table.command_fis;
    assert_eq!(fis.fis_type, 0x27);
    assert_eq!(fis.pm_port, 0x80);
    assert_eq!(fis.command, 0x25);
    assert_eq!(fis.device, 0x40); // LBA addressing mode
    assert_eq!(fis.countl, 1);
    assert_eq!(fis.counth, 0);
    assert_eq!(fis.lba0, 0);
    assert_eq!(fis.control, 0);
}

#[test]
fn region_descriptor_counts_transfer_minus_one() {
    let mut table = zero_table();
    let mut header = create_command_header(0xB000, 0);
    header.prdbc = 77;
    create_prdt_entry(&mut table, &mut header, 0xC000, 0x2);
    let prdt = &table.prdt_entry[0];
    assert_eq!(prdt.data_base, 0xC000);
    assert_eq!(prdt.data_base_upper, 0x2);
    assert_eq!(prdt.byte_count, 511); // 512-byte sector
    assert_eq!(prdt.flags, 0x8000_01FF); // byte count plus interrupt-on-completion
    assert_eq!(header.prdt_length, 1);
    assert_eq!(header.prdbc, 0);
}

#[test]
fn command_times_out_when_issue_bit_never_clears() {
    let dev = SataDeviceModel { completes: false, completion_step: 0, tfd: 0 };
    let mut port = zero_port();
    let outcome = issue_command(&mut port, &dev, 1000);
    assert_eq!(outcome, CommandOutcome::TimedOut);
    assert_eq!(port.ci, 1);
    assert_eq!(port.cmd, 0x11);

    // Completing one step past the budget is still a timeout.
    let late = SataDeviceModel { completes: true, completion_step: 1000, tfd: 0 };
    let mut port = zero_port();
    assert_eq!(issue_command(&mut port, &late, 1000), CommandOutcome::TimedOut);
}

#[test]
fn command_completes_or_reports_controller_error() {
    let good = SataDeviceModel { completes: true, completion_step: 17, tfd: 0x50 };
    let mut port = zero_port();
    assert_eq!(issue_command(&mut port, &good, 1000), CommandOutcome::Completed);

    let failing = SataDeviceModel { completes: true, completion_step: 0, tfd: 0x80 };
    let mut port = zero_port();
    assert_eq!(issue_command(&mut port, &failing, 1000), CommandOutcome::ControllerError);
}

#[test]
fn poll_decisions_match_register_reads() {
    assert_eq!(poll_decision(1, 0, 5), None);
    assert_eq!(poll_decision(1, 0, 0), Some(CommandOutcome::TimedOut));
    assert_eq!(poll_decision(0, 0x50, 5), Some(CommandOutcome::Completed));
    assert_eq!(poll_decision(0, 0x88, 5), Some(CommandOutcome::ControllerError));

    let dev = SataDeviceModel { completes: true, completion_step: 3, tfd: 0 };
    assert_eq!(device_ci_read(&dev, 2), 1);
    assert_eq!(device_ci_read(&dev, 3), 0);
}

#[test]
fn integrity_report_decodes_descriptors() {
    let mut table = zero_table();
    let mut header = create_command_header(0xB000, 0x1);
    setup_command_table(&mut table);
    create_prdt_entry(&mut table, &mut header, 0xC000, 0x2);
    let mut port = zero_port();
    port.ssts = 0x0103;

    let report = check_integrity(&header, &table, &port);
    assert_eq!(report.fis_length_words, 5);
    assert_eq!(report.prdt_length, 1);
    assert_eq!(report.table_address, 0x1_0000_B000);
    assert_eq!(report.data_base, 0x2_0000_C000);
    assert_eq!(report.byte_count_plus_one, 512);
    assert!(report.ioc_flag_set);
    assert_eq!(report.det, 3);
}

#[test]
fn data_buffer_readback_takes_first_sixteen_bytes() {
    let mut buffer = vec![0u8; 512];
    for k in 0..32 {
        buffer[k] = k as u8;
    }
    let head = read_data_buffer(&buffer);
    assert_eq!(head, (0u8..16).collect::<Vec<u8>>());
}

#[test]
fn page_arena_advances_and_reports_exhaustion() {
    let mut heap = PageHeap::new();
    assert_eq!(allocate_page(&mut heap), Some(PAGE_HEAP_START));
    assert_eq!(allocate_page(&mut heap), Some(PAGE_HEAP_START + 4096));
    assert_eq!(heap.next_free_page, PAGE_HEAP_START + 8192);

    let mut nearly_full = PageHeap { next_free_page: PAGE_HEAP_END - 4096 };
    assert_eq!(allocate_page(&mut nearly_full), Some(PAGE_HEAP_END - 4096));
    assert_eq!(allocate_page(&mut nearly_full), None);
    assert_eq!(nearly_full.next_free_page, PAGE_HEAP_END);
}

#[test]
fn zeroing_touches_exactly_the_range() {
    let mut mem = MemWindow { base: 0x4000, bytes: vec![0x5Au8; 64] };
    zero_page(&mut mem, 0x4010, Some(8));
    for k in 0..16 {
        assert_eq!(mem.bytes[k], 0x5A);
    }
    for k in 16..24 {
        assert_eq!(mem.bytes[k], 0);
    }
    for k in 24..64 {
        assert_eq!(mem.bytes[k], 0x5A);
    }

    // Without a count, one whole page is zeroed.
    let mut page = MemWindow { base: 0, bytes: vec![0xFFu8; 8192] };
    zero_page(&mut page, 0, None);
    assert!(page.bytes[..4096].iter().all(|b| *b == 0));
    assert!(page.bytes[4096..].iter().all(|b| *b == 0xFF));
}

#[test]
fn typed_discovery_reports_missing_hardware() {
    let space = PciConfigSpace {
        devices: vec![device(0, 4, 0, 0x5555_8086, 0x0106_0100, 0xFEB0_0000)],
    };
    assert_eq!(discover_controller(&space), Ok((0, 4, 0)));
    let empty = PciConfigSpace { devices: vec![] };
    assert_eq!(discover_controller(&empty), Err(DriveError::ControllerNotFound));

    let mut ports = vec![zero_port(); 32];
    ports[2].ssts = 0x0103;
    ports[2].sig = 0x0000_0101;
    let hba = HbaMem {
        cap: 0,
        ghc: 0,
        is: 0,
        pi: 0b100,
        vs: 0,
        ccc_ctl: 0,
        ccc_pts: 0,
        em_loc: 0,
        em_ctl: 0,
        cap2: 0,
        bohc: 0,
        ports,
    };
    assert_eq!(find_drive(&hba), Ok(2));
    let none = HbaMem { pi: 0, ..hba };
    assert_eq!(find_drive(&none), Err(DriveError::NoCompatibleDeviceFound));
}

#[test]
fn typed_read_maps_each_terminal_state() {
    let good = SataDeviceModel { completes: true, completion_step: 3, tfd: 0 };
    let mut port = zero_port();
    assert_eq!(issue_read(&mut port, &good, 100), Ok(()));

    let stuck = SataDeviceModel { completes: false, completion_step: 0, tfd: 0 };
    let mut port = zero_port();
    assert_eq!(issue_read(&mut port, &stuck, 100), Err(DriveError::CommandTimeout));

    let faulted = SataDeviceModel { completes: true, completion_step: 0, tfd: 0x08 };
    let mut port = zero_port();
    assert_eq!(issue_read(&mut port, &faulted, 100), Err(DriveError::ControllerReportedError));
}
