//! Image parsing and segment loading.

use boot_core::elf_loading::{
    aligned_range, elf_class_from_code, endianness_from_code, isa_from_code,
    object_file_type_from_code, osabi_from_code, ph_type_from_code, ELFClass, ELFHeader,
    ELFIdentity, Endianness, ISA, ObjectFileType, OSABI, ParseError, ProgramHeader,
    ProgramHeaderType,
};
use boot_core::loader::{
    apply_plan, largest_conventional_region, parse_elf_and_load, place_segment, KernelElfData,
    LoadError, LoadFailure, MemWindow, MemoryRegionInfo, SegmentPlacement,
};

/// A 64-byte header for a supported image: 64-bit, little-endian,
/// executable, with the given entry and segment-table geometry.
fn header_bytes(entry: u64, phoff: u64, phentsize: u16, phnum: u16) -> Vec<u8> {
    let mut d = vec![0u8; 64];
    d[0] = 0x7F;
    d[1] = 0x45;
    d[2] = 0x4C;
    d[3] = 0x46;
    d[4] = 0x02; // 64-bit
    d[5] = 0x01; // little-endian
    d[7] = 0x00; // ABI tag
    d[16] = 0x02; // executable
    d[18] = 0x3E; // AMD64
    d[20] = 0x01; // version
    d[24..32].copy_from_slice(&entry.to_le_bytes());
    d[32..40].copy_from_slice(&phoff.to_le_bytes());
    d[54..56].copy_from_slice(&phentsize.to_le_bytes());
    d[56..58].copy_from_slice(&phnum.to_le_bytes());
    d
}

/// Writes one loadable segment descriptor at `at`.
fn put_segment(d: &mut Vec<u8>, at: usize, offset: u64, vaddr: u64, filesz: u64, memsz: u64) {
    d[at..at + 4].copy_from_slice(&1u32.to_le_bytes());
    d[at + 8..at + 16].copy_from_slice(&offset.to_le_bytes());
    d[at + 16..at + 24].copy_from_slice(&vaddr.to_le_bytes());
    d[at + 24..at + 32].copy_from_slice(&vaddr.to_le_bytes());
    d[at + 32..at + 40].copy_from_slice(&filesz.to_le_bytes());
    d[at + 40..at + 48].copy_from_slice(&memsz.to_le_bytes());
}

#[test]
fn identity_parses_supported_image() {
    let d = header_bytes(0, 64, 56, 0);
    let id = ELFIdentity::make(&d).unwrap();
    assert_eq!(id.magic, [0x7F, 0x45, 0x4C, 0x46]);
    assert_eq!(id.class, ELFClass::X64);
    assert_eq!(id.endianness, Endianness::Little);
    assert_eq!(id.os_abi, OSABI::SystemV);
}

#[test]
fn identity_rejects_bad_magic() {
    let mut d = header_bytes(0, 64, 56, 0);
    d[0] = 0x7E;
    assert_eq!(ELFIdentity::make(&d), Err(ParseError::BadMagic));
    let short = vec![0x7Fu8, 0x45, 0x4C];
    assert_eq!(ELFIdentity::make(&short), Err(ParseError::BadMagic));
}

#[test]
fn identity_rejects_unsupported_class_and_endianness() {
    let mut d = header_bytes(0, 64, 56, 0);
    d[4] = 0x01; // 32-bit
    assert_eq!(ELFIdentity::make(&d), Err(ParseError::UnsupportedClass));
    d[4] = 0x07; // meaningless class code
    assert_eq!(ELFIdentity::make(&d), Err(ParseError::UnsupportedClass));
    d[4] = 0x02;
    d[5] = 0x02; // big-endian
    assert_eq!(ELFIdentity::make(&d), Err(ParseError::UnsupportedEndianness));
}

#[test]
fn identity_keeps_unknown_abi_tag_explicit() {
    let mut d = header_bytes(0, 64, 56, 0);
    d[7] = 0x55;
    let id = ELFIdentity::make(&d).unwrap();
    assert_eq!(id.os_abi, OSABI::Unrecognized);
}

#[test]
fn header_decodes_fixed_offsets() {
    let d = header_bytes(0x10_0000, 64, 56, 3);
    let h = ELFHeader::make(&d).unwrap();
    assert_eq!(h.e_type, ObjectFileType::Executable);
    assert_eq!(h.isa, ISA::AMD64);
    assert_eq!(h.version, 1);
    assert_eq!(h.entry_function, 0x10_0000);
    assert_eq!(h.program_header_offset, 64);
    assert_eq!(h.phentry_size, 56);
    assert_eq!(h.phentry_amount, 3);
}

#[test]
fn header_rejects_unknown_codes() {
    let mut d = header_bytes(0, 64, 56, 0);
    d[16] = 0x09;
    assert_eq!(ELFHeader::make(&d), Err(ParseError::UnknownObjectType));
    d[16] = 0x02;
    d[18] = 0x05;
    assert_eq!(ELFHeader::make(&d), Err(ParseError::UnknownInstructionSet));
}

#[test]
fn enum_decoders_are_strict() {
    assert_eq!(osabi_from_code(0x03), OSABI::Linux);
    assert_eq!(osabi_from_code(0x99), OSABI::Unrecognized);
    assert_eq!(endianness_from_code(0x02), Some(Endianness::Big));
    assert_eq!(endianness_from_code(0x00), None);
    assert_eq!(elf_class_from_code(0x01), Some(ELFClass::X32));
    assert_eq!(elf_class_from_code(0x03), None);
    assert_eq!(object_file_type_from_code(0x04), Some(ObjectFileType::CoreFile));
    assert_eq!(object_file_type_from_code(0x05), None);
    assert_eq!(isa_from_code(0x28), Some(ISA::ARM));
    assert_eq!(isa_from_code(0x29), None);
    assert_eq!(ph_type_from_code(0x01), ProgramHeaderType::Load);
    assert_eq!(ph_type_from_code(0x60000000), ProgramHeaderType::Unrecognized);
}

#[test]
fn aligned_range_covers_segment() {
    let (start, end, pages) = aligned_range(0x1234, 0x100);
    assert_eq!(start, 0x1000);
    assert_eq!(end, 0x2000);
    assert_eq!(pages, 1);

    let (start, end, pages) = aligned_range(0x1000, 0x1000);
    assert_eq!(start, 0x1000);
    assert_eq!(end, 0x2000);
    assert_eq!(pages, 1);

    let (start, end, pages) = aligned_range(0x1FFF, 0x2);
    assert_eq!(start, 0x1000);
    assert_eq!(end, 0x3000);
    assert_eq!(pages, 2);

    let (start, end, pages) = aligned_range(0x3000, 0);
    assert_eq!(start, 0x3000);
    assert_eq!(end, 0x3000);
    assert_eq!(pages, 0);
}

#[test]
fn program_header_decodes_loadable_entry() {
    let mut d = header_bytes(0, 64, 56, 2);
    d.resize(64 + 2 * 56, 0);
    put_segment(&mut d, 64, 0x40, 0x1234, 0x10, 0x20);
    // Second entry is non-loadable.
    d[64 + 56..64 + 60].copy_from_slice(&4u32.to_le_bytes());

    let ph = ProgramHeader::new(&d, 64, 56, 0).unwrap();
    assert_eq!(ph.p_type, ProgramHeaderType::Load);
    assert_eq!(ph.offset, 0x40);
    assert_eq!(ph.virtual_addr, 0x1234);
    assert_eq!(ph.file_size, 0x10);
    assert_eq!(ph.memory_size, 0x20);
    assert_eq!(ph.start, 0x1000);
    assert_eq!(ph.vaddr_end, 0x2000);
    assert_eq!(ph.page_count, 1);

    assert_eq!(ProgramHeader::get_type(&d, 64, 56, 1), ProgramHeaderType::Note);
    assert!(ProgramHeader::new(&d, 64, 56, 1).is_none());
}

#[test]
fn load_end_to_end_places_one_segment() {
    // A 4096-byte image: entry 0x100000, one loadable segment with
    // vaddr 0x100000, file offset 64, 10 file bytes, 20 memory bytes.
    let mut d = header_bytes(0x10_0000, 128, 56, 1);
    d.resize(4096, 0);
    put_segment(&mut d, 128, 64, 0x10_0000, 10, 20);
    for k in 0..10 {
        d[64 + k] = 0x30 + k as u8;
    }

    let plan = parse_elf_and_load(&d).unwrap();
    assert_eq!(plan.entry, 0x10_0000);
    assert_eq!(plan.placements.len(), 1);
    let p = &plan.placements[0];
    assert_eq!(p.start, 0x10_0000);
    assert_eq!(p.page_count, 1);
    assert_eq!(p.end, 0x10_1000);
    assert!(p.fresh_allocation);

    // Apply to a window pre-filled with a sentinel, so the zero-fill is
    // observable as exactly the ten bytes after the copied region.
    let mut mem = MemWindow { base: 0x10_0000, bytes: vec![0xAAu8; 4096] };
    apply_plan(&plan, &d, &mut mem).unwrap();
    for k in 0..10 {
        assert_eq!(mem.bytes[k], 0x30 + k as u8); // copied from [64, 74)
    }
    for k in 10..20 {
        assert_eq!(mem.bytes[k], 0x00); // zero-filled [0x10000A, 0x100014)
    }
    for k in 20..4096 {
        assert_eq!(mem.bytes[k], 0xAA); // untouched
    }
}

#[test]
fn shared_page_is_claimed_once() {
    // Two loadable segments whose aligned ranges both start at 0x1000.
    let mut d = header_bytes(0x1000, 128, 56, 2);
    d.resize(4096, 0);
    put_segment(&mut d, 128, 0, 0x1100, 4, 4);
    put_segment(&mut d, 128 + 56, 0, 0x1800, 4, 4);

    let plan = parse_elf_and_load(&d).unwrap();
    assert_eq!(plan.placements.len(), 2);
    assert_eq!(plan.placements[0].start, 0x1000);
    assert_eq!(plan.placements[1].start, 0x1000);
    assert!(plan.placements[0].fresh_allocation);
    assert!(!plan.placements[1].fresh_allocation);
}

#[test]
fn load_rejects_inconsistent_sizes() {
    let mut d = header_bytes(0, 128, 56, 1);
    d.resize(4096, 0);
    put_segment(&mut d, 128, 0, 0x1000, 0x20, 0x10); // file size > memory size
    assert_eq!(
        parse_elf_and_load(&d),
        Err(LoadFailure::Load(LoadError::SizeInvariantViolated))
    );
}

#[test]
fn load_rejects_source_out_of_bounds() {
    let mut d = header_bytes(0, 128, 56, 1);
    d.resize(4096, 0);
    put_segment(&mut d, 128, 4090, 0x1000, 0x10, 0x10); // bytes past the buffer
    assert_eq!(
        parse_elf_and_load(&d),
        Err(LoadFailure::Load(LoadError::SourceRangeOutOfBounds))
    );
}

#[test]
fn load_rejects_truncated_table() {
    let d = header_bytes(0, 4090, 56, 1); // table past the buffer
    assert_eq!(
        parse_elf_and_load(&d),
        Err(LoadFailure::Load(LoadError::SourceRangeOutOfBounds))
    );
}

#[test]
fn load_reports_parse_failures() {
    let mut d = header_bytes(0, 64, 56, 0);
    d[5] = 0x02;
    assert_eq!(
        parse_elf_and_load(&d),
        Err(LoadFailure::Parse(ParseError::UnsupportedEndianness))
    );
}

#[test]
fn zero_file_size_copies_nothing() {
    let mut mem = MemWindow { base: 0x1000, bytes: vec![0x77u8; 4096] };
    let data = vec![0x55u8; 64];
    let p = SegmentPlacement {
        start: 0x1000,
        end: 0x2000,
        page_count: 1,
        copy_dst: 0x1010,
        file_offset: 0,
        file_size: 0,
        memory_size: 8,
        fresh_allocation: true,
    };
    place_segment(&mut mem, &data, &p);
    for k in 0..0x10 {
        assert_eq!(mem.bytes[k], 0x77);
    }
    for k in 0x10..0x18 {
        assert_eq!(mem.bytes[k], 0x00); // the whole extent is zero-fill
    }
    for k in 0x18..4096 {
        assert_eq!(mem.bytes[k], 0x77);
    }
}

#[test]
fn apply_plan_fails_outside_window() {
    let mut d = header_bytes(0x10_0000, 128, 56, 1);
    d.resize(4096, 0);
    put_segment(&mut d, 128, 64, 0x10_0000, 10, 20);
    let plan = parse_elf_and_load(&d).unwrap();

    let mut mem = MemWindow { base: 0x20_0000, bytes: vec![0u8; 4096] };
    assert_eq!(apply_plan(&plan, &d, &mut mem), Err(LoadError::AllocationFailed));
    assert!(mem.bytes.iter().all(|b| *b == 0));
}

#[test]
fn largest_conventional_region_picks_last_maximum() {
    let a = MemoryRegionInfo { phys_start: 0x1000, page_count: 4, conventional: true };
    let b = MemoryRegionInfo { phys_start: 0x2000, page_count: 9, conventional: false };
    let c = MemoryRegionInfo { phys_start: 0x3000, page_count: 4, conventional: true };
    let d = MemoryRegionInfo { phys_start: 0x4000, page_count: 2, conventional: true };

    let picked = largest_conventional_region(&vec![a, b, c, d]).unwrap();
    assert_eq!(picked, c);

    assert!(largest_conventional_region(&vec![b]).is_none());
    assert!(largest_conventional_region(&vec![]).is_none());
}

#[test]
fn kernel_data_exposes_binary_prefix() {
    let kd = KernelElfData { _len: 6, binary_size: 4, buffer: vec![1, 2, 3, 4, 5, 6] };
    assert_eq!(kd.get_buffer_slice(), &[1, 2, 3, 4]);
}
