//! Segment loading: from a parsed image to page-exact physical placements.
//!
//! Placement is identity-mapped and non-relocatable: every loadable segment
//! must land at exactly the page-aligned range covering its virtual
//! addresses.  Planning is separated from the raw memory writes: the plan
//! records, per loadable segment, the aligned range, whether the range needs
//! a fresh allocation (segments may share a boundary page, which is claimed
//! only once), and the copy/zero-fill extents.  A plan can then be applied
//! to any physical window, modelled here as a byte vector with a base
//! address; the unverified front end applies the same plan to real memory.

use vstd::prelude::*;

use crate::bytes_le::{le16_at, le32_at, le64_at, read_u32_le, read_u64_le};
use crate::elf_loading::{
    aligned_range, header_error_of, header_ok, page_align_down, page_align_up, ELFHeader,
    ParseError, ProgramHeaderType, ph_type_of,
};
use crate::PAGE_SIZE;

verus! {

/// Why a parsed image could not be placed in memory.
#[derive(Clone, Copy, Debug, PartialEq, Eq, Structural)]
pub enum LoadError {
    /// The exact-address page allocation cannot be honored.
    AllocationFailed,
    /// A segment's sizes are inconsistent (file size exceeds memory size) or
    /// its address range cannot be represented.
    SizeInvariantViolated,
    /// A segment's descriptor or file bytes lie outside the image buffer.
    SourceRangeOutOfBounds,
}

/// Either stage of failure of `parse_elf_and_load`: the image did not parse,
/// or a segment could not be planned.
#[derive(Clone, Copy, Debug, PartialEq, Eq, Structural)]
pub enum LoadFailure {
    Parse(ParseError),
    Load(LoadError),
}

/// The placement of one loadable segment: the page-aligned destination
/// range, whether it must be freshly allocated, and the copy/zero extents.
#[derive(Clone, Copy, Debug, PartialEq, Eq, Structural)]
pub struct SegmentPlacement {
    /// Page-aligned start of the destination range; the exact physical
    /// address the allocator must honor when `fresh_allocation` is set.
    pub start: u64,
    /// Page-aligned end of the destination range.
    pub end: u64,
    /// Number of pages between `start` and `end`.
    pub page_count: u64,
    /// Destination of the first copied byte: the segment's virtual address.
    pub copy_dst: u64,
    /// Offset in the image of the first byte to copy.
    pub file_offset: u64,
    /// Number of bytes copied from the image.
    pub file_size: u64,
    /// Number of bytes the segment occupies in memory; the tail beyond
    /// `file_size` is zero-filled.
    pub memory_size: u64,
    /// Whether this placement claims its range from the allocator, or reuses
    /// a range an earlier segment already claimed.
    pub fresh_allocation: bool,
}

/// The destination range is page-exact and contains the copy and zero-fill
/// extents.
pub open spec fn placement_wf(p: SegmentPlacement) -> bool {
    &&& p.start % PAGE_SIZE == 0
    &&& p.start <= p.copy_dst
    &&& p.copy_dst + p.memory_size <= p.end
    &&& p.end == p.start + p.page_count * PAGE_SIZE
    &&& p.file_size <= p.memory_size
}

/// The bytes the placement copies lie inside the image buffer.
pub open spec fn placement_src_ok(p: SegmentPlacement, s: Seq<u8>) -> bool {
    p.file_offset + p.file_size <= s.len()
}

/// Some placement before index `j` claims the same aligned start.
pub open spec fn earlier_claim(ps: Seq<SegmentPlacement>, j: int) -> bool {
    exists|k: int| 0 <= k < j && ps[k].start == ps[j].start
}

/// Every placement is marked as a fresh allocation exactly when no earlier
/// placement claimed the same aligned start.
pub open spec fn fresh_flags_consistent(ps: Seq<SegmentPlacement>) -> bool {
    forall|j: int|
        0 <= j < ps.len() ==> (ps[j].fresh_allocation <==> !#[trigger] earlier_claim(ps, j))
}

/// Some placement in `ps` claims the aligned start `st`.
pub open spec fn has_start(ps: Seq<SegmentPlacement>, st: u64) -> bool {
    exists|k: int| 0 <= k < ps.len() && ps[k].start == st
}

/// The aligned start of the segment descriptor at `e`.
pub open spec fn seg_start(s: Seq<u8>, e: int) -> u64 {
    page_align_down(le64_at(s, e + 16)) as u64
}

/// The placement planned for the loadable segment descriptor at `e`.
pub open spec fn placement_of(s: Seq<u8>, e: int, fresh: bool) -> SegmentPlacement {
    let vaddr = le64_at(s, e + 16);
    let memsz = le64_at(s, e + 40);
    SegmentPlacement {
        start: page_align_down(vaddr) as u64,
        end: page_align_up(vaddr + memsz) as u64,
        page_count: ((page_align_up(vaddr + memsz) - page_align_down(vaddr)) / (
        PAGE_SIZE as int)) as u64,
        copy_dst: vaddr as u64,
        file_offset: le64_at(s, e + 8) as u64,
        file_size: le64_at(s, e + 32) as u64,
        memory_size: memsz as u64,
        fresh_allocation: fresh,
    }
}

/// The check that rejects a loadable segment descriptor at `e`, if any, in
/// validation order: size invariant, representable range, source range.
pub open spec fn seg_error(s: Seq<u8>, e: int) -> Option<LoadError> {
    if le64_at(s, e + 32) > le64_at(s, e + 40) {
        Some(LoadError::SizeInvariantViolated)
    } else if le64_at(s, e + 16) + le64_at(s, e + 40) + (PAGE_SIZE - 1) > u64::MAX {
        Some(LoadError::SizeInvariantViolated)
    } else if le64_at(s, e + 8) + le64_at(s, e + 32) > s.len() {
        Some(LoadError::SourceRangeOutOfBounds)
    } else {
        None
    }
}

/// The plan for the first `n` segment descriptors of the table at `phoff`
/// with entry size `entsize`, or the error of the first descriptor that was
/// rejected.  Non-loadable descriptors contribute nothing; a loadable one
/// appends its placement, fresh exactly when no earlier placement claimed
/// the same start.
pub open spec fn plan_upto(s: Seq<u8>, phoff: int, entsize: int, n: nat) -> Result<
    Seq<SegmentPlacement>,
    LoadError,
>
    decreases n,
{
    if n == 0 {
        Ok(Seq::empty())
    } else {
        let prev_r = plan_upto(s, phoff, entsize, (n - 1) as nat);
        if prev_r is Err {
            prev_r
        } else {
            let prev = prev_r->Ok_0;
            let e = phoff + (n - 1) * entsize;
            if e + 48 > s.len() {
                Err(LoadError::SourceRangeOutOfBounds)
            } else if ph_type_of(le32_at(s, e)) != ProgramHeaderType::Load {
                Ok(prev)
            } else if seg_error(s, e) is Some {
                Err(seg_error(s, e)->0)
            } else {
                Ok(prev.push(placement_of(s, e, !has_start(prev, seg_start(s, e)))))
            }
        }
    }
}

/// The complete placement plan for one image: the placements of its loadable
/// segments in table order, and the entry address to transfer control to.
#[derive(Clone, Debug, PartialEq, Eq)]
pub struct LoadPlan {
    pub placements: Vec<SegmentPlacement>,
    pub entry: u64,
}

/// Whether `v` holds `x`.
fn contains_u64(v: &Vec<u64>, x: u64) -> (r: bool)
    ensures
        r == v@.contains(x),
{
    let mut k: usize = 0;
    while k < v.len()
        invariant
            0 <= k <= v.len(),
            forall|t: int| 0 <= t < k ==> v@[t] != x,
        decreases v.len() - k,
    {
        if v[k] == x {
            return true;
        }
        k += 1;
    }
    false
}

/// Extends a consistent plan with one more placement: the set of claimed
/// starts stays exactly the set of placement starts, and the fresh flags
/// stay consistent with first occurrence.
proof fn lemma_plan_extend(
    old_ps: Seq<SegmentPlacement>,
    old_claimed: Seq<u64>,
    p: SegmentPlacement,
    new_ps: Seq<SegmentPlacement>,
    new_claimed: Seq<u64>,
)
    requires
        new_ps == old_ps.push(p),
        p.fresh_allocation <==> !old_claimed.contains(p.start),
        p.fresh_allocation ==> new_claimed == old_claimed.push(p.start),
        !p.fresh_allocation ==> new_claimed == old_claimed,
        forall|st: u64| old_claimed.contains(st) <==> has_start(old_ps, st),
        fresh_flags_consistent(old_ps),
    ensures
        forall|st: u64| new_claimed.contains(st) <==> has_start(new_ps, st),
        fresh_flags_consistent(new_ps),
{
    assert forall|st: u64| new_claimed.contains(st) implies has_start(new_ps, st) by {
        let t = choose|t: int| 0 <= t < new_claimed.len() && new_claimed[t] == st;
        if t < old_claimed.len() {
            assert(old_claimed[t] == st);
            assert(old_claimed.contains(st));
            let k = choose|k: int| 0 <= k < old_ps.len() && old_ps[k].start == st;
            assert(new_ps[k].start == st);
        } else {
            assert(st == p.start);
            assert(new_ps[new_ps.len() - 1].start == st);
        }
    }
    assert forall|st: u64| has_start(new_ps, st) implies new_claimed.contains(st) by {
        let k = choose|k: int| 0 <= k < new_ps.len() && new_ps[k].start == st;
        if k < old_ps.len() {
            assert(old_ps[k].start == st);
            assert(has_start(old_ps, st));
            assert(old_claimed.contains(st));
            let t = choose|t: int| 0 <= t < old_claimed.len() && old_claimed[t] == st;
            assert(new_claimed[t] == st);
        } else {
            assert(st == p.start);
            if p.fresh_allocation {
                assert(new_claimed[new_claimed.len() - 1] == st);
            } else {
                assert(old_claimed.contains(st));
                let t = choose|t: int| 0 <= t < old_claimed.len() && old_claimed[t] == st;
                assert(new_claimed[t] == st);
            }
        }
    }
    assert forall|j: int|
        0 <= j < new_ps.len() implies (new_ps[j].fresh_allocation <==> !#[trigger] earlier_claim(
        new_ps,
        j,
    )) by {
        if j < old_ps.len() {
            assert(new_ps[j] == old_ps[j]);
            assert(earlier_claim(new_ps, j) <==> earlier_claim(old_ps, j)) by {
                if earlier_claim(new_ps, j) {
                    let k = choose|k: int| 0 <= k < j && new_ps[k].start == new_ps[j].start;
                    assert(old_ps[k].start == old_ps[j].start);
                }
                if earlier_claim(old_ps, j) {
                    let k = choose|k: int| 0 <= k < j && old_ps[k].start == old_ps[j].start;
                    assert(new_ps[k].start == new_ps[j].start);
                }
            }
        } else {
            assert(new_ps[j] == p);
            assert(earlier_claim(new_ps, j) <==> has_start(old_ps, p.start)) by {
                if earlier_claim(new_ps, j) {
                    let k = choose|k: int| 0 <= k < j && new_ps[k].start == new_ps[j].start;
                    assert(old_ps[k].start == p.start);
                }
                if has_start(old_ps, p.start) {
                    let k = choose|k: int| 0 <= k < old_ps.len() && old_ps[k].start == p.start;
                    assert(new_ps[k].start == new_ps[j].start);
                }
            }
        }
    }
}

/// Plans the placements of the loadable segments of the table at `e_phoff`
/// with `e_phnum` entries of `e_phentsize` bytes each, validating every
/// descriptor; the result is exactly `plan_upto` over the whole table.
#[verifier::loop_isolation(false)]
#[verifier::rlimit(100)]
#[verifier::spinoff_prover]
fn plan_segments(data: &Vec<u8>, e_phoff: u64, e_phentsize: u16, e_phnum: u16) -> (r: Result<
    Vec<SegmentPlacement>,
    LoadError,
>)
    ensures
        ({
            let plan_r = plan_upto(data@, e_phoff as int, e_phentsize as int, e_phnum as nat);
            &&& plan_r is Ok ==> r is Ok && r->Ok_0@ == plan_r->Ok_0
            &&& plan_r is Err ==> r is Err && r->Err_0 == plan_r->Err_0
        }),
        r is Ok ==> {
            let ps = r->Ok_0@;
            &&& fresh_flags_consistent(ps)
            &&& forall|j: int|
                0 <= j < ps.len() ==> #[trigger] placement_wf(ps[j]) && placement_src_ok(
                    ps[j],
                    data@,
                )
        },
{
    let len64: u64 = data.len() as u64;

    let mut placements: Vec<SegmentPlacement> = Vec::new();
    let mut claimed: Vec<u64> = Vec::new();

    let mut i: u16 = 0;
    while i < e_phnum
        invariant
            0 <= i <= e_phnum,
            plan_upto(data@, e_phoff as int, e_phentsize as int, i as nat) == Ok::<
                Seq<SegmentPlacement>,
                LoadError,
            >(placements@),
            forall|st: u64| claimed@.contains(st) <==> has_start(placements@, st),
            fresh_flags_consistent(placements@),
            forall|j: int|
                0 <= j < placements@.len() ==> #[trigger] placement_wf(placements@[j])
                    && placement_src_ok(placements@[j], data@),
        decreases e_phnum - i,
    {
        let ghost s = data@;
        let ghost e = e_phoff + i * e_phentsize;
        proof {
            assert((i as int) * (e_phentsize as int) <= 0xFFFF * 0xFFFF) by (nonlinear_arith)
                requires
                    0 <= i as int <= 0xFFFF,
                    0 <= e_phentsize as int <= 0xFFFF,
            ;
        }
        let idx_off: u64 = (i as u64) * (e_phentsize as u64);

        if e_phoff > len64 || idx_off + 48 > len64 - e_phoff {
            proof {
                plan_upto_err_stable(
                    s,
                    e_phoff as int,
                    e_phentsize as int,
                    (i + 1) as nat,
                    e_phnum as nat,
                );
            }
            return Err(LoadError::SourceRangeOutOfBounds);
        }
        let entry: usize = (e_phoff + idx_off) as usize;

        let p_type_raw = read_u32_le(data, entry);
        if p_type_raw == 1 {
            let p_offset = read_u64_le(data, entry + 8);
            let p_vaddr = read_u64_le(data, entry + 16);
            let p_filesz = read_u64_le(data, entry + 32);
            let p_memsz = read_u64_le(data, entry + 40);

            if p_filesz > p_memsz {
                proof {
                    plan_upto_err_stable(
                        s,
                        e_phoff as int,
                        e_phentsize as int,
                        (i + 1) as nat,
                        e_phnum as nat,
                    );
                }
                return Err(LoadError::SizeInvariantViolated);
            }
            if p_vaddr > u64::MAX - (PAGE_SIZE - 1) || p_memsz > u64::MAX - (PAGE_SIZE - 1)
                - p_vaddr {
                proof {
                    plan_upto_err_stable(
                        s,
                        e_phoff as int,
                        e_phentsize as int,
                        (i + 1) as nat,
                        e_phnum as nat,
                    );
                }
                return Err(LoadError::SizeInvariantViolated);
            }
            if p_offset > len64 || p_filesz > len64 - p_offset {
                proof {
                    plan_upto_err_stable(
                        s,
                        e_phoff as int,
                        e_phentsize as int,
                        (i + 1) as nat,
                        e_phnum as nat,
                    );
                }
                return Err(LoadError::SourceRangeOutOfBounds);
            }

            let (mem_start, mem_end, page_count) = aligned_range(p_vaddr, p_memsz);

            let ghost old_ps = placements@;
            let ghost old_claimed = claimed@;
            let fresh = !contains_u64(&claimed, mem_start);
            if fresh {
                claimed.push(mem_start);
            }
            let placement = SegmentPlacement {
                start: mem_start,
                end: mem_end,
                page_count,
                copy_dst: p_vaddr,
                file_offset: p_offset,
                file_size: p_filesz,
                memory_size: p_memsz,
                fresh_allocation: fresh,
            };
            placements.push(placement);

            proof {
                assert(placement == placement_of(s, e, fresh));
                assert(fresh <==> !has_start(old_ps, seg_start(s, e)));
                assert(plan_upto(s, e_phoff as int, e_phentsize as int, (i + 1) as nat) == Ok::<
                    Seq<SegmentPlacement>,
                    LoadError,
                >(placements@));
                lemma_plan_extend(old_ps, old_claimed, placement, placements@, claimed@);
                assert(placement_wf(placement));
                assert(placement_src_ok(placement, s));
                assert forall|j: int| 0 <= j < placements@.len() implies #[trigger] placement_wf(
                    placements@[j],
                ) && placement_src_ok(placements@[j], s) by {
                    if j < old_ps.len() {
                        assert(placements@[j] == old_ps[j]);
                        assert(placement_wf(old_ps[j]) && placement_src_ok(old_ps[j], s));
                    } else {
                        assert(placements@[j] == placement);
                    }
                }
            }
        } else {
            assert(plan_upto(s, e_phoff as int, e_phentsize as int, (i + 1) as nat) == Ok::<
                Seq<SegmentPlacement>,
                LoadError,
            >(placements@));
        }
        i += 1;
    }

    Ok(placements)
}

/// Parses the image header and plans the placement of every loadable
/// segment.
///
/// Succeeds exactly when the header parses and every descriptor of the
/// segment table lies inside the buffer and passes the size and source-range
/// checks; the resulting plan is `plan_upto` over the whole table, and the
/// entry address is the header's.  Aligned ranges shared by several segments
/// are claimed once: a placement is marked `fresh_allocation` exactly when
/// no earlier placement has the same start.
pub fn parse_elf_and_load(data: &Vec<u8>) -> (r: Result<LoadPlan, LoadFailure>)
    requires
        data.len() >= 64,
    ensures
        !header_ok(data@) ==> r == Err::<LoadPlan, LoadFailure>(
            LoadFailure::Parse(header_error_of(data@)),
        ),
        header_ok(data@) ==> {
            let plan_r = plan_upto(
                data@,
                le64_at(data@, 32),
                le16_at(data@, 54),
                le16_at(data@, 56) as nat,
            );
            &&& plan_r is Ok ==> {
                &&& r is Ok
                &&& r->Ok_0.placements@ == plan_r->Ok_0
                &&& r->Ok_0.entry == le64_at(data@, 24)
            }
            &&& plan_r is Err ==> r == Err::<LoadPlan, LoadFailure>(
                LoadFailure::Load(plan_r->Err_0),
            )
        },
        r is Ok ==> {
            let ps = r->Ok_0.placements@;
            &&& fresh_flags_consistent(ps)
            &&& forall|j: int|
                0 <= j < ps.len() ==> #[trigger] placement_wf(ps[j]) && placement_src_ok(
                    ps[j],
                    data@,
                )
        },
{
    let header = match ELFHeader::make(data) {
        Ok(h) => h,
        Err(e) => {
            return Err(LoadFailure::Parse(e));
        },
    };

    let placements = match plan_segments(
        data,
        header.program_header_offset,
        header.phentry_size,
        header.phentry_amount,
    ) {
        Ok(ps) => ps,
        Err(le) => {
            return Err(LoadFailure::Load(le));
        },
    };

    Ok(LoadPlan { placements, entry: header.entry_function })
}

/// Once the plan for a prefix of the table is an error, the plan for the
/// whole table is that same error.
proof fn plan_upto_err_stable(s: Seq<u8>, phoff: int, entsize: int, n: nat, m: nat)
    requires
        n <= m,
        plan_upto(s, phoff, entsize, n) is Err,
    ensures
        plan_upto(s, phoff, entsize, m) == plan_upto(s, phoff, entsize, n),
    decreases m,
{
    if m > n {
        plan_upto_err_stable(s, phoff, entsize, n, (m - 1) as nat);
    }
}

/// Law: of two placements that computed the same aligned start, only the
/// first requests an allocation; the later one reuses the claimed range.
pub proof fn lemma_single_allocation(ps: Seq<SegmentPlacement>, i: int, j: int)
    requires
        fresh_flags_consistent(ps),
        0 <= i < j < ps.len(),
        ps[i].start == ps[j].start,
    ensures
        !ps[j].fresh_allocation,
{
    assert(earlier_claim(ps, j)) by {
        assert(0 <= i < j && ps[i].start == ps[j].start);
    }
}

/// Law: the first placement to claim an aligned start does request the
/// allocation, so every claimed range is allocated exactly once.
pub proof fn lemma_first_claim_allocates(ps: Seq<SegmentPlacement>, j: int)
    requires
        fresh_flags_consistent(ps),
        0 <= j < ps.len(),
        forall|k: int| 0 <= k < j ==> ps[k].start != ps[j].start,
    ensures
        ps[j].fresh_allocation,
{
    if earlier_claim(ps, j) {
        let k = choose|k: int| 0 <= k < j && ps[k].start == ps[j].start;
        assert(false);
    }
}

/// A window of physical memory, modelled as the bytes of the address range
/// `[base, base + bytes.len())`.  The unverified front end owns the real
/// pages; this model is what the verified loader writes into.
pub struct MemWindow {
    pub base: u64,
    pub bytes: Vec<u8>,
}

/// The window's address range is representable.
pub open spec fn mem_window_wf(w: MemWindow) -> bool {
    w.base + w.bytes@.len() <= u64::MAX + 1
}

/// The placement's destination range lies inside the window `[base, base + len)`.
pub open spec fn placement_in_window(p: SegmentPlacement, base: int, len: int) -> bool {
    base <= p.start && p.end <= base + len
}

/// The window bytes after placing one segment: `file_size` bytes copied from
/// the image at `file_offset` to `copy_dst`, the remaining
/// `memory_size - file_size` bytes immediately after them zero-filled, and
/// every other byte untouched.
pub open spec fn place_bytes(m: Seq<u8>, base: int, data: Seq<u8>, p: SegmentPlacement) -> Seq<
    u8,
> {
    Seq::new(
        m.len(),
        |i: int|
            {
                let addr = base + i;
                if p.copy_dst <= addr < p.copy_dst + p.file_size {
                    data[p.file_offset + (addr - p.copy_dst)]
                } else if p.copy_dst + p.file_size <= addr < p.copy_dst + p.memory_size {
                    0u8
                } else {
                    m[i]
                }
            },
    )
}

/// The window bytes after placing each segment of `ps` in order.
pub open spec fn apply_placements(
    m: Seq<u8>,
    base: int,
    data: Seq<u8>,
    ps: Seq<SegmentPlacement>,
) -> Seq<u8>
    decreases ps.len(),
{
    if ps.len() == 0 {
        m
    } else {
        apply_placements(place_bytes(m, base, data, ps[0]), base, data, ps.drop_first())
    }
}

/// Placing the segments of `ps.push(p)` is placing those of `ps`, then `p`.
proof fn lemma_apply_snoc(
    m: Seq<u8>,
    base: int,
    data: Seq<u8>,
    ps: Seq<SegmentPlacement>,
    p: SegmentPlacement,
)
    ensures
        apply_placements(m, base, data, ps.push(p)) == place_bytes(
            apply_placements(m, base, data, ps),
            base,
            data,
            p,
        ),
    decreases ps.len(),
{
    if ps.len() == 0 {
        assert(ps.push(p)[0] == p);
        assert(ps.push(p).drop_first() =~= Seq::<SegmentPlacement>::empty());
        assert(apply_placements(m, base, data, ps.push(p)) == apply_placements(
            place_bytes(m, base, data, p),
            base,
            data,
            Seq::<SegmentPlacement>::empty(),
        ));
        assert(apply_placements(
            place_bytes(m, base, data, p),
            base,
            data,
            Seq::<SegmentPlacement>::empty(),
        ) == place_bytes(m, base, data, p));
    } else {
        assert(ps.push(p)[0] == ps[0]);
        assert(ps.push(p).drop_first() =~= ps.drop_first().push(p));
        let m1 = place_bytes(m, base, data, ps[0]);
        lemma_apply_snoc(m1, base, data, ps.drop_first(), p);
        assert(apply_placements(m, base, data, ps.push(p)) == apply_placements(
            m1,
            base,
            data,
            ps.drop_first().push(p),
        ));
        assert(apply_placements(m, base, data, ps) == apply_placements(
            m1,
            base,
            data,
            ps.drop_first(),
        ));
    }
}

/// Writes one planned segment into the window: copies `file_size` bytes of
/// the image from `file_offset` to `copy_dst` and zero-fills the
/// `memory_size - file_size` bytes immediately after them.  When
/// `file_size == 0` no byte is copied.
#[verifier::loop_isolation(false)]
pub fn place_segment(mem: &mut MemWindow, data: &Vec<u8>, p: &SegmentPlacement)
    requires
        mem_window_wf(*old(mem)),
        placement_wf(*p),
        placement_src_ok(*p, data@),
        placement_in_window(*p, old(mem).base as int, old(mem).bytes@.len() as int),
    ensures
        final(mem).base == old(mem).base,
        final(mem).bytes@ == place_bytes(old(mem).bytes@, old(mem).base as int, data@, *p),
{
    let ghost old_bytes = old(mem).bytes@;
    let ghost cd = p.copy_dst as int;
    let ghost fo = p.file_offset as int;
    let ghost base = old(mem).base as int;

    let data_len: usize = data.len();
    let mem_len: usize = mem.bytes.len();

    let cd_off: usize = (p.copy_dst - mem.base) as usize;
    let fo_us: usize = p.file_offset as usize;
    let fs: usize = p.file_size as usize;
    let zero_len: usize = (p.memory_size - p.file_size) as usize;

    let mut k: usize = 0;
    while k < fs
        invariant
            0 <= k <= fs,
            mem.base == old(mem).base,
            mem.bytes@.len() == old_bytes.len(),
            forall|i: int|
                0 <= i < old_bytes.len() ==> #[trigger] mem.bytes@[i] == (if cd <= base + i < cd
                    + k {
                    data@[fo + (base + i - cd)]
                } else {
                    old_bytes[i]
                }),
        decreases fs - k,
    {
        let b = data[fo_us + k];
        mem.bytes[cd_off + k] = b;
        k += 1;
    }

    let mut z: usize = 0;
    while z < zero_len
        invariant
            0 <= z <= zero_len,
            mem.base == old(mem).base,
            mem.bytes@.len() == old_bytes.len(),
            forall|i: int|
                0 <= i < old_bytes.len() ==> #[trigger] mem.bytes@[i] == (if cd <= base + i < cd
                    + p.file_size {
                    data@[fo + (base + i - cd)]
                } else if cd + p.file_size <= base + i < cd + p.file_size + z {
                    0u8
                } else {
                    old_bytes[i]
                }),
        decreases zero_len - z,
    {
        mem.bytes[cd_off + fs + z] = 0;
        z += 1;
    }

    proof {
        let placed = place_bytes(old_bytes, base, data@, *p);
        assert forall|i: int| 0 <= i < old_bytes.len() implies mem.bytes@[i] == placed[i] by {
            assert(mem.bytes@[i] == (if cd <= base + i < cd + p.file_size {
                data@[fo + (base + i - cd)]
            } else if cd + p.file_size <= base + i < cd + p.memory_size {
                0u8
            } else {
                old_bytes[i]
            }));
        }
        assert(mem.bytes@ =~= placed);
    }
}

/// Applies a plan to a window.  Every destination range must lie inside the
/// window — the model of an exact-address allocation that cannot be honored
/// elsewhere — and on failure the window is untouched.  On success the
/// window holds exactly the planned placements, applied in order.
#[verifier::loop_isolation(false)]
pub fn apply_plan(plan: &LoadPlan, data: &Vec<u8>, mem: &mut MemWindow) -> (r: Result<
    (),
    LoadError,
>)
    requires
        mem_window_wf(*old(mem)),
        forall|j: int|
            0 <= j < plan.placements@.len() ==> #[trigger] placement_wf(plan.placements@[j])
                && placement_src_ok(plan.placements@[j], data@),
    ensures
        final(mem).base == old(mem).base,
        final(mem).bytes@.len() == old(mem).bytes@.len(),
        r is Ok <==> (forall|j: int|
            0 <= j < plan.placements@.len() ==> #[trigger] placement_in_window(
                plan.placements@[j],
                old(mem).base as int,
                old(mem).bytes@.len() as int,
            )),
        r is Ok ==> final(mem).bytes@ == apply_placements(
            old(mem).bytes@,
            old(mem).base as int,
            data@,
            plan.placements@,
        ),
        r is Err ==> final(mem).bytes@ == old(mem).bytes@ && r->Err_0
            == LoadError::AllocationFailed,
{
    let len64: u64 = mem.bytes.len() as u64;
    let ghost base = mem.base as int;
    let ghost len = old(mem).bytes@.len() as int;

    let mut j: usize = 0;
    while j < plan.placements.len()
        invariant
            0 <= j <= plan.placements@.len(),
            forall|t: int|
                0 <= t < j ==> #[trigger] placement_in_window(plan.placements@[t], base, len),
        decreases plan.placements@.len() - j,
    {
        let p = &plan.placements[j];
        proof {
            assert(placement_wf(plan.placements@[j as int]));
        }
        if p.start < mem.base || p.end - mem.base > len64 {
            proof {
                assert(!placement_in_window(plan.placements@[j as int], base, len));
            }
            return Err(LoadError::AllocationFailed);
        }
        proof {
            assert(placement_in_window(plan.placements@[j as int], base, len));
        }
        j += 1;
    }

    let ghost old_bytes = old(mem).bytes@;
    let mut t: usize = 0;
    while t < plan.placements.len()
        invariant
            0 <= t <= plan.placements@.len(),
            mem.base == old(mem).base,
            mem.bytes@.len() == old_bytes.len(),
            mem.bytes@ == apply_placements(old_bytes, base, data@, plan.placements@.take(t as int)),
        decreases plan.placements@.len() - t,
    {
        proof {
            assert(placement_wf(plan.placements@[t as int]));
            assert(placement_src_ok(plan.placements@[t as int], data@));
            assert(placement_in_window(plan.placements@[t as int], base, len));
        }
        place_segment(mem, data, &plan.placements[t]);
        proof {
            let ps = plan.placements@;
            assert(ps.take(t + 1) =~= ps.take(t as int).push(ps[t as int]));
            lemma_apply_snoc(old_bytes, base, data@, ps.take(t as int), ps[t as int]);
        }
        t += 1;
    }
    proof {
        assert(plan.placements@.take(plan.placements@.len() as int) =~= plan.placements@);
    }
    Ok(())
}


/// The kernel image as read from the boot volume: the byte buffer and the
/// binary's size.  The unverified front end fills it from firmware file
/// services.
pub struct KernelElfData {
    pub _len: usize,
    pub binary_size: u64,
    pub buffer: Vec<u8>,
}

impl KernelElfData {
    /// The recorded binary size fits the buffer.
    pub open spec fn wf(&self) -> bool {
        self.binary_size <= self.buffer@.len()
    }

    /// The image bytes: the first `binary_size` bytes of the buffer.
    pub fn get_buffer_slice(&self) -> (r: &[u8])
        requires
            self.wf(),
        ensures
            r@ == self.buffer@.subrange(0, self.binary_size as int),
    {
        let _buffer_len: usize = self.buffer.len();
        vstd::slice::slice_subrange(self.buffer.as_slice(), 0, self.binary_size as usize)
    }
}

/// One region of the firmware memory map, reduced to what the loader
/// consults: where it starts, how many pages it spans, and whether it is
/// conventional (general-purpose) memory.
#[derive(Clone, Copy, Debug, PartialEq, Eq, Structural)]
pub struct MemoryRegionInfo {
    pub phys_start: u64,
    pub page_count: u64,
    pub conventional: bool,
}

/// Picks the largest conventional region of the memory map: a conventional
/// region with no smaller index than any equally large one, and at least as
/// large as every conventional region.  `None` exactly when the map has no
/// conventional region.
#[verifier::loop_isolation(false)]
pub fn largest_conventional_region(mmap: &Vec<MemoryRegionInfo>) -> (r: Option<MemoryRegionInfo>)
    ensures
        r is Some <==> (exists|k: int| 0 <= k < mmap@.len() && #[trigger] mmap@[k].conventional),
        r is Some ==> (exists|k: int|
            {
                &&& 0 <= k < mmap@.len()
                &&& #[trigger] mmap@[k] == r->0
                &&& mmap@[k].conventional
                &&& forall|l: int|
                    0 <= l < mmap@.len() && #[trigger] mmap@[l].conventional ==> mmap@[l].page_count
                        <= mmap@[k].page_count
                &&& forall|l: int|
                    k < l < mmap@.len() && #[trigger] mmap@[l].conventional ==> mmap@[l].page_count
                        < mmap@[k].page_count
            }),
{
    let ghost ms = mmap@;
    let mut best: Option<MemoryRegionInfo> = Option::None;
    let ghost mut best_idx: int = 0;

    let mut k: usize = 0;
    while k < mmap.len()
        invariant
            0 <= k <= ms.len(),
            best is None ==> (forall|l: int| 0 <= l < k ==> !(#[trigger] ms[l].conventional)),
            best is Some ==> {
                &&& 0 <= best_idx < k
                &&& ms[best_idx] == best->0
                &&& ms[best_idx].conventional
                &&& forall|l: int|
                    0 <= l < k && #[trigger] ms[l].conventional ==> ms[l].page_count
                        <= ms[best_idx].page_count
                &&& forall|l: int|
                    best_idx < l < k && #[trigger] ms[l].conventional ==> ms[l].page_count
                        < ms[best_idx].page_count
            },
        decreases ms.len() - k,
    {
        let cand = &mmap[k];
        if cand.conventional {
            let replace = match &best {
                Option::Some(b) => cand.page_count >= b.page_count,
                Option::None => true,
            };
            if replace {
                best = Some(*cand);
                proof {
                    best_idx = k as int;
                }
            }
        }
        k += 1;
    }
    best
}

} // verus!
