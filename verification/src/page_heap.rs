//! The kernel's physical page allocator: a bump arena over a fixed address
//! window.  One offset advances page by page; exhaustion is a reported
//! failure, never an out-of-window hand-out.  Zeroing a page is a write into
//! the modelled physical window.

use vstd::prelude::*;

use crate::loader::{mem_window_wf, MemWindow};
use crate::PAGE_SIZE;

verus! {

/// First byte of the page arena.
pub const PAGE_HEAP_START: u64 = 0x4100000;

/// First byte past the page arena.
pub const PAGE_HEAP_END: u64 = 0x4600000;

/// The bump allocator's whole state: the next page it will hand out.
pub struct PageHeap {
    pub next_free_page: u64,
}

/// The cursor stays page-aligned inside the arena.
pub open spec fn page_heap_wf(h: PageHeap) -> bool {
    &&& PAGE_HEAP_START <= h.next_free_page <= PAGE_HEAP_END
    &&& h.next_free_page % PAGE_SIZE == 0
}

impl PageHeap {
    /// A fresh arena, starting at the window's first page.
    pub fn new() -> (r: Self)
        ensures
            r.next_free_page == PAGE_HEAP_START,
            page_heap_wf(r),
    {
        Self { next_free_page: PAGE_HEAP_START }
    }
}

/// Hands out the next page of the arena and advances the cursor, or reports
/// exhaustion — and hands nothing out — once the window is full.
pub fn allocate_page(heap: &mut PageHeap) -> (r: Option<u64>)
    requires
        page_heap_wf(*old(heap)),
    ensures
        page_heap_wf(*final(heap)),
        old(heap).next_free_page + PAGE_SIZE > PAGE_HEAP_END ==> (r is None && *final(heap)
            == *old(heap)),
        old(heap).next_free_page + PAGE_SIZE <= PAGE_HEAP_END ==> (r == Some(
            old(heap).next_free_page,
        ) && final(heap).next_free_page == old(heap).next_free_page + PAGE_SIZE),
{
    if heap.next_free_page > PAGE_HEAP_END - PAGE_SIZE {
        return Option::None;
    }

    let ptr = heap.next_free_page;
    heap.next_free_page = heap.next_free_page + PAGE_SIZE;
    Some(ptr)
}

/// The window bytes with `[ptr, ptr + len)` zeroed and all else untouched.
pub open spec fn zeroed_range(m: Seq<u8>, base: int, ptr: int, len: int) -> Seq<u8> {
    Seq::new(
        m.len(),
        |i: int|
            if ptr <= base + i < ptr + len {
                0u8
            } else {
                m[i]
            },
    )
}

/// Zeroes `count` bytes at `pointer` — one page when no count is given —
/// inside the modelled physical window.
#[verifier::loop_isolation(false)]
pub fn zero_page(mem: &mut MemWindow, pointer: u64, count: Option<u64>)
    requires
        mem_window_wf(*old(mem)),
        old(mem).base <= pointer,
        pointer + (match count {
            Some(c) => c as int,
            Option::None => PAGE_SIZE as int,
        }) <= old(mem).base + old(mem).bytes@.len(),
    ensures
        final(mem).base == old(mem).base,
        final(mem).bytes@ == zeroed_range(
            old(mem).bytes@,
            old(mem).base as int,
            pointer as int,
            match count {
                Some(c) => c as int,
                Option::None => PAGE_SIZE as int,
            },
        ),
{
    let len: u64 = match count {
        Some(c) => c,
        Option::None => PAGE_SIZE,
    };
    let ghost old_bytes = old(mem).bytes@;
    let ghost base = old(mem).base as int;
    let mem_len: usize = mem.bytes.len();
    let start: usize = (pointer - mem.base) as usize;
    let len_us: usize = len as usize;
    proof {
        assert(start + len_us <= mem_len);
    }

    let mut k: usize = 0;
    while k < len_us
        invariant
            0 <= k <= len,
            mem.base == old(mem).base,
            mem.bytes@.len() == old_bytes.len(),
            forall|i: int|
                0 <= i < old_bytes.len() ==> #[trigger] mem.bytes@[i] == (if pointer <= base + i
                    < pointer + k {
                    0u8
                } else {
                    old_bytes[i]
                }),
        decreases len - k,
    {
        mem.bytes[start + k] = 0;
        k += 1;
    }

    proof {
        let zeroed = zeroed_range(old_bytes, base, pointer as int, len as int);
        assert forall|i: int| 0 <= i < old_bytes.len() implies mem.bytes@[i] == zeroed[i] by {}
        assert(mem.bytes@ =~= zeroed);
    }
}

} // verus!
