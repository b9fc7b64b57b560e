//! Laws of the mapping syscalls, stated and proved over the same spec
//! functions that the entry points' contracts use.

use vstd::prelude::*;
use crate::addr::{page_ceil, page_floor, PAGE_SIZE};
use crate::permission::{spec_decode, MapPermission};
use crate::space::page_range;
use crate::syscalls::{spec_mmap, spec_mmap_ok, spec_munmap, spec_munmap_ok};

verus! {

/// A request whose start address is not page-aligned is accepted by neither
/// mapping nor unmapping, whatever its length, its port, and the state of
/// the space; by the entry points' contracts both calls then return `-1`.
pub proof fn lemma_misaligned_rejected(
    m: Map<nat, MapPermission>,
    start: usize,
    len: usize,
    port: usize,
)
    requires
        start % PAGE_SIZE != 0,
    ensures
        !spec_mmap_ok(m, start, len, port),
        !spec_munmap_ok(m, start, len),
{
}

/// Whether a request is accepted depends only on the state of the space and
/// the arguments, and a rejected request leaves the space as it was (the
/// entry points' contracts); so repeating a rejected request against the
/// state it left behind is rejected again.
pub proof fn lemma_rejection_idempotent(
    m_before: Map<nat, MapPermission>,
    m_after: Map<nat, MapPermission>,
    start: usize,
    len: usize,
    port: usize,
)
    requires
        !spec_mmap_ok(m_before, start, len, port),
        m_after == m_before,
    ensures
        !spec_mmap_ok(m_after, start, len, port),
{
}

/// After an accepted mapping request, any mapping request whose page range
/// shares at least one page `v` with the mapped one is rejected.
pub proof fn lemma_no_overlap(
    m: Map<nat, MapPermission>,
    start1: usize,
    len1: usize,
    port1: usize,
    start2: usize,
    len2: usize,
    port2: usize,
    v: nat,
)
    requires
        spec_mmap_ok(m, start1, len1, port1),
        page_floor(start1 as int) <= v < page_ceil(start1 as int + len1 as int),
        page_floor(start2 as int) <= v < page_ceil(start2 as int + len2 as int),
    ensures
        !spec_mmap_ok(spec_mmap(m, start1, len1, port1), start2, len2, port2),
{
    assert(spec_mmap(m, start1, len1, port1).contains_key(v));
}

/// An accepted unmapping request unmaps every page of its range: a mapping
/// request over a page it covered is no longer blocked by that page.
pub proof fn lemma_unmap_clears(m: Map<nat, MapPermission>, start: usize, len: usize, v: nat)
    requires
        page_floor(start as int) <= v < page_ceil(start as int + len as int),
    ensures
        !spec_munmap(m, start, len).contains_key(v),
{
    assert(page_range(page_floor(start as int), page_ceil(start as int + len as int)).contains(v));
}

/// A zero-length mapping request with an aligned start and a valid port is
/// accepted and is a no-op: its page range is empty, so the space is left
/// exactly as it was.
pub proof fn lemma_empty_range_noop(m: Map<nat, MapPermission>, start: usize, port: usize)
    requires
        start % PAGE_SIZE == 0,
        spec_decode(port) is Some,
    ensures
        spec_mmap_ok(m, start, 0, port),
        spec_mmap(m, start, 0, port) == m,
{
    assert(spec_mmap(m, start, 0, port) =~= m);
}

} // verus!
