//! Virtual addresses, page alignment, and the region validator that turns a
//! raw `(start, length)` argument pair into a validated page range.

use vstd::prelude::*;

verus! {

/// Size in bytes of one page, the alignment unit of the virtual address
/// space.
pub const PAGE_SIZE: usize = 4096;

/// Number of the page containing the address `a`.
pub open spec fn page_floor(a: int) -> int {
    a / (PAGE_SIZE as int)
}

/// Number of the first page boundary at or above the address `a`.
pub open spec fn page_ceil(a: int) -> int {
    if a % (PAGE_SIZE as int) == 0 {
        a / (PAGE_SIZE as int)
    } else {
        a / (PAGE_SIZE as int) + 1
    }
}

/// An address in a process's virtual address space.
#[derive(Clone, Copy, PartialEq, Eq, Structural, Debug)]
pub struct VirtAddr(pub usize);

impl VirtAddr {
    /// The address lies on a page boundary.
    pub open spec fn spec_aligned(self) -> bool {
        self.0 % PAGE_SIZE == 0
    }

    /// Whether the address lies on a page boundary.
    pub fn aligned(&self) -> (r: bool)
        ensures
            r == self.spec_aligned(),
    {
        self.0 % PAGE_SIZE == 0
    }

    /// Number of the page containing this address.
    pub fn floor_page(&self) -> (r: usize)
        ensures
            r == page_floor(self.0 as int),
    {
        self.0 / PAGE_SIZE
    }

    /// Number of the first page boundary at or above this address.
    pub fn ceil_page(&self) -> (r: usize)
        ensures
            r == page_ceil(self.0 as int),
    {
        if self.0 % PAGE_SIZE == 0 {
            self.0 / PAGE_SIZE
        } else {
            proof {
                assert(self.0 / PAGE_SIZE < self.0) by (nonlinear_arith)
                    requires
                        self.0 % PAGE_SIZE != 0,
                ;
            }
            self.0 / PAGE_SIZE + 1
        }
    }
}

/// A half-open range `[start_page, end_page)` of page numbers, derived from
/// a validated raw region argument.
#[derive(Clone, Copy, PartialEq, Eq, Structural, Debug)]
pub struct VirtualPageRange {
    pub start_page: usize,
    pub end_page: usize,
}

/// Rejection of a region whose start address is not page-aligned.
#[derive(Clone, Copy, PartialEq, Eq, Structural, Debug)]
pub struct AlignmentError;

/// Validates a raw `(start, len)` region argument: rejects a start address
/// that is not page-aligned, and otherwise yields the half-open page range
/// from the page containing `start` up to the first page boundary at or
/// above `start + len`. A length of zero yields an empty range.
pub fn validate(start: usize, len: usize) -> (r: Result<VirtualPageRange, AlignmentError>)
    requires
        start + len <= usize::MAX,
    ensures
        r is Ok <==> start % PAGE_SIZE == 0,
        r matches Ok(pr) ==> pr.start_page == page_floor(start as int) && pr.end_page == page_ceil(
            start as int + len as int,
        ),
{
    let start_va = VirtAddr(start);
    if !start_va.aligned() {
        return Err(AlignmentError);
    }
    let end_va = VirtAddr(start + len);
    Ok(VirtualPageRange { start_page: start_va.floor_page(), end_page: end_va.ceil_page() })
}

} // verus!
