//! Firmware bring-up core: an executable-image parser and page-exact segment
//! loader, followed by a SATA host-controller discovery and command engine.
//!
//! The crate verifies the decision logic of both stages.  Everything the
//! hardware answers (port reads, memory-mapped registers, the physical page
//! allocator) enters these functions as plain values; the thin unverified
//! front end that performs the raw accesses lives outside the library.

pub mod ahci;
pub mod bytes_le;
pub mod characters;
pub mod cmd_management;
pub mod drawing;
pub mod elf_loading;
pub mod events;
pub mod fonts;
pub mod loader;
pub mod page_heap;
pub mod pci;
pub mod serial_io;

use vstd::prelude::*;

verus! {

/// Size in bytes of one physical page, the placement granule of the loader.
pub const PAGE_SIZE: u64 = 4096;

} // verus!
