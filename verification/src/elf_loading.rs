//! Executable-image header parsing.
//!
//! The image format is a fixed binary layout: a 16-byte identity block, a
//! 64-byte header with little-endian fields at fixed offsets, and a table of
//! segment descriptors.  Validation is strict: the magic must match, only the
//! 64-bit little-endian variant is accepted, and every enumeration read from
//! the file is decoded through a closed variant set — an unknown object-file
//! or instruction-set code is a hard parse failure, never a guessed default.

use vstd::prelude::*;

use crate::bytes_le::{le16_at, le32_at, le64_at, read_u16_le, read_u32_le, read_u64_le};
use crate::PAGE_SIZE;

verus! {

/// Why a byte buffer was rejected as an executable image.
#[derive(Clone, Copy, Debug, PartialEq, Eq, Structural)]
pub enum ParseError {
    BadMagic,
    UnsupportedClass,
    UnsupportedEndianness,
    UnknownObjectType,
    UnknownInstructionSet,
}

/// ABI tag of the identity block.  An unknown code is kept as
/// `Unrecognized` rather than coerced to a known variant; it does not fail
/// the parse because no consumer of the image depends on it.
#[derive(Clone, Copy, Debug, PartialEq, Eq, Structural)]
pub enum OSABI {
    SystemV,
    HPUX,
    NetBSD,
    Linux,
    GNUHurd,
    Solaris,
    AIX,
    IRIX,
    FreeBSD,
    Tru64,
    NovellModesto,
    OpenBSD,
    OpenVMS,
    NonStopKernel,
    AROS,
    FenixOS,
    NuxiCloudABI,
    OpenVOS,
    Unrecognized,
}

/// Byte order declared by the identity block.
#[derive(Clone, Copy, Debug, PartialEq, Eq, Structural)]
pub enum Endianness {
    Little,
    Big,
}

/// Word width declared by the identity block.
#[derive(Clone, Copy, Debug, PartialEq, Eq, Structural)]
pub enum ELFClass {
    X32,
    X64,
}

/// Object-file kind stored in the header.
#[derive(Clone, Copy, Debug, PartialEq, Eq, Structural)]
pub enum ObjectFileType {
    Unknown,
    Relocatable,
    Executable,
    SharedObject,
    CoreFile,
}

/// Instruction-set tag stored in the header.
#[derive(Clone, Copy, Debug, PartialEq, Eq, Structural)]
pub enum ISA {
    Unknown,
    X86,
    ARM,
    AMD64,
}

/// Segment-descriptor kind.  Only `Load` segments are placed in memory; an
/// unknown code is kept as `Unrecognized` and skipped explicitly.
#[derive(Clone, Copy, Debug, PartialEq, Eq, Structural)]
pub enum ProgramHeaderType {
    Null,
    Load,
    Dynamic,
    Interp,
    Note,
    Reserved,
    Header,
    TLS,
    Unrecognized,
}

/// Decodes an ABI-tag byte; total, unknown codes map to `Unrecognized`.
pub open spec fn osabi_of(v: u8) -> OSABI {
    if v == 0x00 {
        OSABI::SystemV
    } else if v == 0x01 {
        OSABI::HPUX
    } else if v == 0x02 {
        OSABI::NetBSD
    } else if v == 0x03 {
        OSABI::Linux
    } else if v == 0x04 {
        OSABI::GNUHurd
    } else if v == 0x06 {
        OSABI::Solaris
    } else if v == 0x07 {
        OSABI::AIX
    } else if v == 0x08 {
        OSABI::IRIX
    } else if v == 0x09 {
        OSABI::FreeBSD
    } else if v == 0x0A {
        OSABI::Tru64
    } else if v == 0x0B {
        OSABI::NovellModesto
    } else if v == 0x0C {
        OSABI::OpenBSD
    } else if v == 0x0D {
        OSABI::OpenVMS
    } else if v == 0x0E {
        OSABI::NonStopKernel
    } else if v == 0x0F {
        OSABI::AROS
    } else if v == 0x10 {
        OSABI::FenixOS
    } else if v == 0x11 {
        OSABI::NuxiCloudABI
    } else if v == 0x12 {
        OSABI::OpenVOS
    } else {
        OSABI::Unrecognized
    }
}

/// Decodes the endianness byte; codes other than 1 and 2 are meaningless.
pub open spec fn endianness_of(v: u8) -> Option<Endianness> {
    if v == 0x01 {
        Some(Endianness::Little)
    } else if v == 0x02 {
        Some(Endianness::Big)
    } else {
        None
    }
}

/// Decodes the class byte; codes other than 1 and 2 are meaningless.
pub open spec fn elf_class_of(v: u8) -> Option<ELFClass> {
    if v == 0x01 {
        Some(ELFClass::X32)
    } else if v == 0x02 {
        Some(ELFClass::X64)
    } else {
        None
    }
}

/// Decodes the 16-bit object-file-type field.
pub open spec fn object_file_type_of(v: int) -> Option<ObjectFileType> {
    if v == 0x00 {
        Some(ObjectFileType::Unknown)
    } else if v == 0x01 {
        Some(ObjectFileType::Relocatable)
    } else if v == 0x02 {
        Some(ObjectFileType::Executable)
    } else if v == 0x03 {
        Some(ObjectFileType::SharedObject)
    } else if v == 0x04 {
        Some(ObjectFileType::CoreFile)
    } else {
        None
    }
}

/// Decodes the 16-bit instruction-set field.
pub open spec fn isa_of(v: int) -> Option<ISA> {
    if v == 0x00 {
        Some(ISA::Unknown)
    } else if v == 0x03 {
        Some(ISA::X86)
    } else if v == 0x28 {
        Some(ISA::ARM)
    } else if v == 0x3E {
        Some(ISA::AMD64)
    } else {
        None
    }
}

/// Decodes the 32-bit segment-type field; total, unknown codes map to
/// `Unrecognized`.
pub open spec fn ph_type_of(v: int) -> ProgramHeaderType {
    if v == 0x00 {
        ProgramHeaderType::Null
    } else if v == 0x01 {
        ProgramHeaderType::Load
    } else if v == 0x02 {
        ProgramHeaderType::Dynamic
    } else if v == 0x03 {
        ProgramHeaderType::Interp
    } else if v == 0x04 {
        ProgramHeaderType::Note
    } else if v == 0x05 {
        ProgramHeaderType::Reserved
    } else if v == 0x06 {
        ProgramHeaderType::Header
    } else if v == 0x07 {
        ProgramHeaderType::TLS
    } else {
        ProgramHeaderType::Unrecognized
    }
}

/// The first four bytes of every valid image: 0x7F then the letters "ELF".
pub open spec fn has_elf_magic(s: Seq<u8>) -> bool {
    &&& s.len() >= 4
    &&& s[0] == 0x7F
    &&& s[1] == 0x45
    &&& s[2] == 0x4C
    &&& s[3] == 0x46
}

/// The identity block parses: it is complete (16 bytes), carries the magic,
/// and declares the one supported combination — 64-bit, little-endian.
pub open spec fn identity_ok(s: Seq<u8>) -> bool {
    &&& s.len() >= 16
    &&& has_elf_magic(s)
    &&& s[4] == 0x02
    &&& s[5] == 0x01
}

/// The error reported for an identity block that does not parse: the first
/// field, in validation order, that was rejected.
pub open spec fn identity_error_of(s: Seq<u8>) -> ParseError
    recommends
        !identity_ok(s),
{
    if !(s.len() >= 16 && has_elf_magic(s)) {
        ParseError::BadMagic
    } else if s[4] != 0x02 {
        ParseError::UnsupportedClass
    } else {
        ParseError::UnsupportedEndianness
    }
}

/// Decoded identity block: magic, word width, byte order, ABI tag.
#[derive(Clone, Copy, Debug, PartialEq, Eq)]
pub struct ELFIdentity {
    pub magic: [u8; 4],
    pub class: ELFClass,
    pub endianness: Endianness,
    pub ei_version: u8,
    pub os_abi: OSABI,
    pub abi_version: u8,
}

impl ELFIdentity {
    /// Parses the identity block at the start of `elf_data`.
    ///
    /// Succeeds exactly when the buffer holds a complete identity block whose
    /// magic matches and whose class/endianness are the supported 64-bit
    /// little-endian pair; every other buffer is rejected with the specific
    /// error, never coerced.
    pub fn make(elf_data: &Vec<u8>) -> (r: Result<Self, ParseError>)
        ensures
            r is Ok <==> identity_ok(elf_data@),
            r is Ok ==> {
                let id = r->Ok_0;
                &&& id.magic@ =~= elf_data@.subrange(0, 4)
                &&& id.class == ELFClass::X64
                &&& id.endianness == Endianness::Little
                &&& id.ei_version == elf_data@[7]
                &&& id.os_abi == osabi_of(elf_data@[7])
                &&& id.abi_version == elf_data@[9]
            },
            r is Err ==> r->Err_0 == identity_error_of(elf_data@),
    {
        if elf_data.len() < 16 {
            return Err(ParseError::BadMagic);
        }
        if !(elf_data[0] == 0x7F && elf_data[1] == 0x45 && elf_data[2] == 0x4C && elf_data[3]
            == 0x46) {
            return Err(ParseError::BadMagic);
        }
        let magic: [u8; 4] = [elf_data[0], elf_data[1], elf_data[2], elf_data[3]];

        let class = match elf_class_from_code(elf_data[4]) {
            Some(ELFClass::X64) => ELFClass::X64,
            _ => {
                return Err(ParseError::UnsupportedClass);
            },
        };
        let endianness = match endianness_from_code(elf_data[5]) {
            Some(Endianness::Little) => Endianness::Little,
            _ => {
                return Err(ParseError::UnsupportedEndianness);
            },
        };
        let os_abi = osabi_from_code(elf_data[7]);
        let ei_version = elf_data[7];
        let abi_version = elf_data[9];

        Ok(
            Self {
                magic,
                class,
                endianness,
                ei_version,
                os_abi,
                abi_version,
            },
        )
    }
}

/// Decodes an ABI-tag byte.
pub fn osabi_from_code(v: u8) -> (r: OSABI)
    ensures
        r == osabi_of(v),
{
    match v {
        0x00 => OSABI::SystemV,
        0x01 => OSABI::HPUX,
        0x02 => OSABI::NetBSD,
        0x03 => OSABI::Linux,
        0x04 => OSABI::GNUHurd,
        0x06 => OSABI::Solaris,
        0x07 => OSABI::AIX,
        0x08 => OSABI::IRIX,
        0x09 => OSABI::FreeBSD,
        0x0A => OSABI::Tru64,
        0x0B => OSABI::NovellModesto,
        0x0C => OSABI::OpenBSD,
        0x0D => OSABI::OpenVMS,
        0x0E => OSABI::NonStopKernel,
        0x0F => OSABI::AROS,
        0x10 => OSABI::FenixOS,
        0x11 => OSABI::NuxiCloudABI,
        0x12 => OSABI::OpenVOS,
        _ => OSABI::Unrecognized,
    }
}

/// Decodes the endianness byte.
pub fn endianness_from_code(v: u8) -> (r: Option<Endianness>)
    ensures
        r == endianness_of(v),
{
    match v {
        0x01 => Some(Endianness::Little),
        0x02 => Some(Endianness::Big),
        _ => None,
    }
}

/// Decodes the class byte.
pub fn elf_class_from_code(v: u8) -> (r: Option<ELFClass>)
    ensures
        r == elf_class_of(v),
{
    match v {
        0x01 => Some(ELFClass::X32),
        0x02 => Some(ELFClass::X64),
        _ => None,
    }
}

/// Decodes the object-file-type field.
pub fn object_file_type_from_code(v: u16) -> (r: Option<ObjectFileType>)
    ensures
        r == object_file_type_of(v as int),
{
    match v {
        0x00 => Some(ObjectFileType::Unknown),
        0x01 => Some(ObjectFileType::Relocatable),
        0x02 => Some(ObjectFileType::Executable),
        0x03 => Some(ObjectFileType::SharedObject),
        0x04 => Some(ObjectFileType::CoreFile),
        _ => None,
    }
}

/// Decodes the instruction-set field.
pub fn isa_from_code(v: u16) -> (r: Option<ISA>)
    ensures
        r == isa_of(v as int),
{
    match v {
        0x00 => Some(ISA::Unknown),
        0x03 => Some(ISA::X86),
        0x28 => Some(ISA::ARM),
        0x3E => Some(ISA::AMD64),
        _ => None,
    }
}

/// Decodes the segment-type field.
pub fn ph_type_from_code(v: u32) -> (r: ProgramHeaderType)
    ensures
        r == ph_type_of(v as int),
{
    match v {
        0x00 => ProgramHeaderType::Null,
        0x01 => ProgramHeaderType::Load,
        0x02 => ProgramHeaderType::Dynamic,
        0x03 => ProgramHeaderType::Interp,
        0x04 => ProgramHeaderType::Note,
        0x05 => ProgramHeaderType::Reserved,
        0x06 => ProgramHeaderType::Header,
        0x07 => ProgramHeaderType::TLS,
        _ => ProgramHeaderType::Unrecognized,
    }
}

/// Largest address that still leaves room for the round-up before page
/// alignment: `v + memsz` may be aligned upward only when adding
/// `PAGE_SIZE - 1` cannot overflow.
pub open spec fn align_up_fits(vaddr: u64, memsz: u64) -> bool {
    vaddr + memsz + (PAGE_SIZE - 1) <= u64::MAX
}

/// `v` rounded down to a page boundary.
pub open spec fn page_align_down(v: int) -> int {
    v - (v % (PAGE_SIZE as int))
}

/// `v` rounded up to a page boundary.
pub open spec fn page_align_up(v: int) -> int {
    page_align_down(v + (PAGE_SIZE - 1))
}

/// Clearing the low twelve bits rounds down to a multiple of the page size.
proof fn lemma_page_mask_is_align_down(v: u64)
    ensures
        v & 0xFFFF_FFFF_FFFF_F000 == page_align_down(v as int),
{
    assert(v & 0xFFFF_FFFF_FFFF_F000 == v - (v % 4096)) by (bit_vector);
}

/// The page-aligned range that covers `[vaddr, vaddr + memsz)`:
/// `(start, end, page_count)` with `start` the page boundary at or below
/// `vaddr`, `end` the page boundary at or above `vaddr + memsz`, and
/// `page_count` the exact number of pages between them.
pub fn aligned_range(vaddr: u64, memsz: u64) -> (r: (u64, u64, u64))
    requires
        align_up_fits(vaddr, memsz),
    ensures
        r.0 == page_align_down(vaddr as int),
        r.1 == page_align_up(vaddr + memsz),
        r.0 <= vaddr,
        vaddr + memsz <= r.1,
        r.0 % PAGE_SIZE == 0,
        r.1 % PAGE_SIZE == 0,
        r.2 * PAGE_SIZE == r.1 - r.0,
{
    proof {
        lemma_page_mask_is_align_down(vaddr);
        lemma_page_mask_is_align_down((vaddr + memsz + (PAGE_SIZE - 1)) as u64);
    }
    let start = vaddr & 0xFFFF_FFFF_FFFF_F000;
    let end = (vaddr + memsz + (PAGE_SIZE - 1)) & 0xFFFF_FFFF_FFFF_F000;
    let page_count = (end - start) / PAGE_SIZE;
    proof {
        let s = start as int;
        let e = end as int;
        assert(e - s == (e - s) / 4096 * 4096) by {
            vstd::arithmetic::div_mod::lemma_sub_mod_noop(e, s, 4096);
            vstd::arithmetic::div_mod::lemma_fundamental_div_mod(e - s, 4096);
        }
    }
    (start, end, page_count)
}

/// The header parses: the identity block is accepted and both enumeration
/// fields carry known codes.
pub open spec fn header_ok(s: Seq<u8>) -> bool {
    &&& identity_ok(s)
    &&& object_file_type_of(le16_at(s, 16)) is Some
    &&& isa_of(le16_at(s, 18)) is Some
}

/// The error reported for a header that does not parse: the first field, in
/// validation order, that was rejected.
pub open spec fn header_error_of(s: Seq<u8>) -> ParseError
    recommends
        !header_ok(s),
{
    if !identity_ok(s) {
        identity_error_of(s)
    } else if object_file_type_of(le16_at(s, 16)) is None {
        ParseError::UnknownObjectType
    } else {
        ParseError::UnknownInstructionSet
    }
}

/// Decoded 64-bit image header.  Multi-byte fields are little-endian
/// integers at fixed offsets: entry address at byte 24, segment-table offset
/// at byte 32, segment entry size at byte 54, segment count at byte 56.
#[derive(Debug, PartialEq, Eq)]
pub struct ELFHeader {
    pub elf_identity: ELFIdentity,
    pub program_headers: Vec<ProgramHeader>,
    pub e_type: ObjectFileType,
    pub isa: ISA,
    pub version: u32,
    pub entry_function: u64,
    pub program_header_offset: u64,
    pub flags: u32,
    pub header_size: u16,
    pub phentry_size: u16,
    pub phentry_amount: u16,
}

impl ELFHeader {
    /// Parses the 64-byte header at the start of `elf_data`.
    ///
    /// Succeeds exactly when the identity block is accepted and the
    /// object-file-type and instruction-set codes are known; each failure
    /// reports the specific error of the first field that was rejected.
    pub fn make(elf_data: &Vec<u8>) -> (r: Result<Self, ParseError>)
        requires
            elf_data.len() >= 64,
        ensures
            r is Ok <==> header_ok(elf_data@),
            r is Ok ==> {
                let h = r->Ok_0;
                &&& h.elf_identity.magic@ =~= elf_data@.subrange(0, 4)
                &&& h.elf_identity.class == ELFClass::X64
                &&& h.elf_identity.endianness == Endianness::Little
                &&& h.elf_identity.os_abi == osabi_of(elf_data@[7])
                &&& h.elf_identity.abi_version == elf_data@[9]
                &&& Some(h.e_type) == object_file_type_of(le16_at(elf_data@, 16))
                &&& Some(h.isa) == isa_of(le16_at(elf_data@, 18))
                &&& h.version == le32_at(elf_data@, 20)
                &&& h.entry_function == le64_at(elf_data@, 24)
                &&& h.program_header_offset == le64_at(elf_data@, 32)
                &&& h.flags == 0
                &&& h.header_size == le16_at(elf_data@, 52)
                &&& h.phentry_size == le16_at(elf_data@, 54)
                &&& h.phentry_amount == le16_at(elf_data@, 56)
                &&& h.program_headers@.len() == 0
            },
            r is Err ==> r->Err_0 == header_error_of(elf_data@),
    {
        let identity = match ELFIdentity::make(elf_data) {
            Ok(ident) => ident,
            Err(e) => {
                return Err(e);
            },
        };

        let (e_type, isa, version) = match Self::make_first_three(elf_data) {
            Ok(three) => three,
            Err(e) => {
                return Err(e);
            },
        };

        let entry_function = read_u64_le(elf_data, 24);
        let program_header_offset = read_u64_le(elf_data, 32);
        let header_size = read_u16_le(elf_data, 52);
        let phentry_size = read_u16_le(elf_data, 54);
        let phentry_amount = read_u16_le(elf_data, 56);

        Ok(
            Self {
                elf_identity: identity,
                program_headers: Vec::new(),
                e_type,
                isa,
                version,
                entry_function,
                program_header_offset,
                flags: 0x0,
                header_size,
                phentry_size,
                phentry_amount,
            },
        )
    }

    /// Decodes the object-file type, instruction set and version fields at
    /// bytes 16, 18 and 20.  An unknown code in either enumeration is a hard
    /// failure.
    pub fn make_first_three(elf_data: &Vec<u8>) -> (r: Result<
        (ObjectFileType, ISA, u32),
        ParseError,
    >)
        requires
            elf_data.len() >= 24,
        ensures
            r is Ok <==> (object_file_type_of(le16_at(elf_data@, 16)) is Some && isa_of(
                le16_at(elf_data@, 18),
            ) is Some),
            r is Ok ==> {
                let (e_type, isa, version) = r->Ok_0;
                &&& Some(e_type) == object_file_type_of(le16_at(elf_data@, 16))
                &&& Some(isa) == isa_of(le16_at(elf_data@, 18))
                &&& version == le32_at(elf_data@, 20)
            },
            r is Err ==> {
                let e = r->Err_0;
                &&& (e == ParseError::UnknownObjectType <==> object_file_type_of(
                    le16_at(elf_data@, 16),
                ) is None)
                &&& (e == ParseError::UnknownInstructionSet <==> (object_file_type_of(
                    le16_at(elf_data@, 16),
                ) is Some && isa_of(le16_at(elf_data@, 18)) is None))
            },
    {
        let etype_integer = read_u16_le(elf_data, 16);
        let e_type = match object_file_type_from_code(etype_integer) {
            Some(t) => t,
            None => {
                return Err(ParseError::UnknownObjectType);
            },
        };

        let emachine_integer = read_u16_le(elf_data, 18);
        let isa = match isa_from_code(emachine_integer) {
            Some(isa) => isa,
            None => {
                return Err(ParseError::UnknownInstructionSet);
            },
        };

        let version = read_u32_le(elf_data, 20);

        Ok((e_type, isa, version))
    }
}

/// One segment descriptor, as decoded from the table entry at
/// `table_offset + index * entry_size`: the type selector, the raw file and
/// address fields, and the derived page-aligned placement range.
#[derive(Clone, Copy, Debug, PartialEq, Eq)]
pub struct ProgramHeader {
    pub p_type: ProgramHeaderType,
    pub offset: u64,
    pub virtual_addr: u64,
    pub physical_addr: u64,
    pub file_size: u64,
    pub memory_size: u64,
    pub start: u64,
    pub vaddr_end: u64,
    pub page_count: u64,
}

impl ProgramHeader {
    /// Decodes the descriptor at `ph_offset + index * phentry_size`.
    /// Returns the descriptor only for a loadable segment; every other type
    /// yields `None` and is skipped by the loader.
    pub fn new(elf_data: &Vec<u8>, ph_offset: usize, phentry_size: u16, index: usize) -> (r:
        Option<Self>)
        requires
            ph_offset + index * phentry_size + 48 <= elf_data.len(),
            le64_at(elf_data@, ph_offset + index * phentry_size + 16) + le64_at(
                elf_data@,
                ph_offset + index * phentry_size + 40,
            ) + (PAGE_SIZE - 1) <= u64::MAX,
        ensures
            ({
                let entry = ph_offset + index * phentry_size;
                &&& (r is Some <==> ph_type_of(le32_at(elf_data@, entry))
                    == ProgramHeaderType::Load)
                &&& r is Some ==> {
                    let ph = r->0;
                    &&& ph.p_type == ProgramHeaderType::Load
                    &&& ph.offset == le64_at(elf_data@, entry + 8)
                    &&& ph.virtual_addr == le64_at(elf_data@, entry + 16)
                    &&& ph.physical_addr == le64_at(elf_data@, entry + 24)
                    &&& ph.file_size == le64_at(elf_data@, entry + 32)
                    &&& ph.memory_size == le64_at(elf_data@, entry + 40)
                    &&& ph.start == page_align_down(ph.virtual_addr as int)
                    &&& ph.vaddr_end == page_align_up(ph.virtual_addr + ph.memory_size)
                    &&& ph.page_count * PAGE_SIZE == ph.vaddr_end - ph.start
                }
            }),
    {
        let entry = ph_offset + index * (phentry_size as usize);
        let p_type = Self::get_type(elf_data, ph_offset, phentry_size, index);
        if let ProgramHeaderType::Load = p_type {
            let offset = read_u64_le(elf_data, entry + 8);
            let virtual_addr = read_u64_le(elf_data, entry + 16);
            let physical_addr = read_u64_le(elf_data, entry + 24);
            let file_size = read_u64_le(elf_data, entry + 32);
            let memory_size = read_u64_le(elf_data, entry + 40);

            let (start, vaddr_end, page_count) = aligned_range(virtual_addr, memory_size);

            return Some(
                Self {
                    p_type,
                    offset,
                    virtual_addr,
                    physical_addr,
                    file_size,
                    memory_size,
                    start,
                    vaddr_end,
                    page_count,
                },
            );
        }
        None
    }

    /// Reads the type selector of the descriptor at
    /// `ph_offset + index * phentry_size`.
    pub fn get_type(elf_data: &Vec<u8>, ph_offset: usize, phentry_size: u16, index: usize) -> (r:
        ProgramHeaderType)
        requires
            ph_offset + index * phentry_size + 4 <= elf_data.len(),
        ensures
            r == ph_type_of(le32_at(elf_data@, ph_offset + index * phentry_size)),
    {
        let entry = ph_offset + index * (phentry_size as usize);
        let p_type = read_u32_le(elf_data, entry);
        ph_type_from_code(p_type)
    }
}

} // verus!
