//! The address-space mutator: the mapping state of one task's virtual
//! address space, with all-or-nothing insert and remove of page ranges.
//!
//! The state is viewed as a mathematical map from page number to the
//! permission set the page was mapped with.

use vstd::prelude::*;
use crate::permission::MapPermission;

verus! {

/// One mapped page: its page number and the flags it was mapped with.
#[derive(Clone, Copy, PartialEq, Eq, Structural, Debug)]
pub struct PageEntry {
    pub vpn: usize,
    pub perm: MapPermission,
}

/// The mapping that a sequence of page entries denotes, a later entry for
/// the same page taking precedence.
pub open spec fn map_of(s: Seq<PageEntry>) -> Map<nat, MapPermission>
    decreases s.len(),
{
    if s.len() == 0 {
        Map::empty()
    } else {
        map_of(s.drop_last()).insert(s.last().vpn as nat, s.last().perm)
    }
}

/// The set of page numbers in the half-open range `[start, end)`.
pub open spec fn page_range(start: int, end: int) -> Set<nat> {
    Set::new(|v: nat| start <= v < end)
}

/// The map that sends every page number in `[start, end)` to `perm`.
pub open spec fn range_map(start: int, end: int, perm: MapPermission) -> Map<nat, MapPermission> {
    Map::new(|v: nat| start <= v < end, |v: nat| perm)
}

/// A page number is a key of `map_of(s)` exactly when some entry of `s`
/// carries it.
proof fn lemma_map_of_contains(s: Seq<PageEntry>, vpn: nat)
    ensures
        map_of(s).contains_key(vpn) <==> exists|i: int|
            0 <= i < s.len() && s[i].vpn as nat == vpn,
    decreases s.len(),
{
    if s.len() == 0 {
    } else {
        let prefix = s.drop_last();
        lemma_map_of_contains(prefix, vpn);
        if map_of(s).contains_key(vpn) {
            if s.last().vpn as nat == vpn {
                assert(s[s.len() - 1].vpn as nat == vpn);
            } else {
                let i = choose|i: int| 0 <= i < prefix.len() && prefix[i].vpn as nat == vpn;
                assert(s[i].vpn as nat == vpn);
            }
        }
        if exists|i: int| 0 <= i < s.len() && s[i].vpn as nat == vpn {
            let i = choose|i: int| 0 <= i < s.len() && s[i].vpn as nat == vpn;
            if i < s.len() - 1 {
                assert(prefix[i].vpn as nat == vpn);
            }
        }
    }
}

/// If entry `i` carries the page `vpn` and no later entry does, the denoted
/// map sends `vpn` to entry `i`'s flags.
proof fn lemma_map_of_value(s: Seq<PageEntry>, i: int, vpn: nat)
    requires
        0 <= i < s.len(),
        s[i].vpn as nat == vpn,
        forall|j: int| i < j < s.len() ==> s[j].vpn as nat != vpn,
    ensures
        map_of(s).contains_key(vpn),
        map_of(s)[vpn] == s[i].perm,
    decreases s.len(),
{
    if i < s.len() - 1 {
        let prefix = s.drop_last();
        assert(prefix[i] == s[i]);
        assert(forall|j: int| i < j < prefix.len() ==> prefix[j] == s[j]);
        lemma_map_of_value(prefix, i, vpn);
        assert(s.last().vpn as nat != vpn);
    }
}

/// Appending an entry inserts its page into the denoted map.
proof fn lemma_map_of_push(s: Seq<PageEntry>, e: PageEntry)
    ensures
        map_of(s.push(e)) == map_of(s).insert(e.vpn as nat, e.perm),
{
    assert(s.push(e).drop_last() =~= s);
    assert(s.push(e).last() == e);
}

/// The mapping state of one task's virtual address space: which pages are
/// mapped, and with which permission flags. Mutations are all-or-nothing:
/// a rejected request leaves the space exactly as it was.
pub struct AddressSpace {
    entries: Vec<PageEntry>,
}

impl View for AddressSpace {
    type V = Map<nat, MapPermission>;

    closed spec fn view(&self) -> Map<nat, MapPermission> {
        map_of(self.entries@)
    }
}

impl AddressSpace {
    /// An address space with no pages mapped.
    pub fn new() -> (r: AddressSpace)
        ensures
            r@ == Map::<nat, MapPermission>::empty(),
    {
        AddressSpace { entries: Vec::new() }
    }

    /// Whether the page numbered `vpn` is currently mapped.
    pub fn contains_page(&self, vpn: usize) -> (r: bool)
        ensures
            r == self@.contains_key(vpn as nat),
    {
        let mut i: usize = 0;
        while i < self.entries.len()
            invariant
                i <= self.entries.len(),
                forall|j: int| 0 <= j < i ==> self.entries@[j].vpn != vpn,
            decreases self.entries.len() - i,
        {
            if self.entries[i].vpn == vpn {
                proof {
                    lemma_map_of_contains(self.entries@, vpn as nat);
                    assert(self.entries@[i as int].vpn as nat == vpn as nat);
                }
                return true;
            }
            i += 1;
        }
        proof {
            lemma_map_of_contains(self.entries@, vpn as nat);
        }
        false
    }

    /// The flags the page numbered `vpn` is currently mapped with, or
    /// `None` if it is not mapped.
    pub fn page_permission(&self, vpn: usize) -> (r: Option<MapPermission>)
        ensures
            r == if self@.contains_key(vpn as nat) {
                Some(self@[vpn as nat])
            } else {
                None::<MapPermission>
            },
    {
        // Scan backward: a later entry for the same page takes precedence.
        let mut i: usize = self.entries.len();
        while i > 0
            invariant
                i <= self.entries.len(),
                forall|j: int| i <= j < self.entries@.len() ==> self.entries@[j].vpn != vpn,
            decreases i,
        {
            i -= 1;
            if self.entries[i].vpn == vpn {
                proof {
                    lemma_map_of_value(self.entries@, i as int, vpn as nat);
                }
                return Some(self.entries[i].perm);
            }
        }
        proof {
            lemma_map_of_contains(self.entries@, vpn as nat);
        }
        None
    }

    /// Maps every page in `[start_page, end_page)` with the flags `perm`.
    /// The request is accepted exactly when no page of the range is already
    /// mapped; a rejected request leaves the space unchanged.
    pub fn insert_region(&mut self, start_page: usize, end_page: usize, perm: MapPermission) -> (r:
        bool)
        ensures
            r <==> (forall|v: nat|
                start_page <= v < end_page ==> !old(self)@.contains_key(v)),
            r ==> final(self)@ == old(self)@.union_prefer_right(
                range_map(start_page as int, end_page as int, perm),
            ),
            !r ==> *final(self) == *old(self),
    {
        if end_page <= start_page {
            proof {
                assert(self@ =~= self@.union_prefer_right(
                    range_map(start_page as int, end_page as int, perm),
                ));
            }
            return true;
        }
        // First pass: reject if any page of the range is already mapped.
        let mut v: usize = start_page;
        while v < end_page
            invariant
                start_page <= v <= end_page,
                *self == *old(self),
                forall|u: nat| start_page <= u < v ==> !self@.contains_key(u),
            decreases end_page - v,
        {
            if self.contains_page(v) {
                proof {
                    assert(start_page as nat <= v as nat && (v as nat) < end_page as nat
                        && self@.contains_key(v as nat));
                }
                return false;
            }
            v += 1;
        }
        // Second pass: insert every page of the range.
        let ghost m0 = self@;
        proof {
            assert(self@ =~= m0.union_prefer_right(
                range_map(start_page as int, start_page as int, perm),
            ));
        }
        let mut v: usize = start_page;
        while v < end_page
            invariant
                start_page <= v <= end_page,
                self@ == m0.union_prefer_right(
                    range_map(start_page as int, v as int, perm),
                ),
            decreases end_page - v,
        {
            let ghost prev = self.entries@;
            self.entries.push(PageEntry { vpn: v, perm });
            proof {
                lemma_map_of_push(prev, PageEntry { vpn: v, perm });
                assert(self@ =~= m0.union_prefer_right(
                    range_map(start_page as int, v as int + 1, perm),
                ));
            }
            v += 1;
        }
        true
    }

    /// Unmaps every page in `[start_page, end_page)`. The request is
    /// accepted exactly when every page of the range is currently mapped;
    /// a rejected request leaves the space unchanged.
    pub fn remove_region(&mut self, start_page: usize, end_page: usize) -> (r: bool)
        ensures
            r <==> (forall|v: nat|
                start_page <= v < end_page ==> old(self)@.contains_key(v)),
            r ==> final(self)@ == old(self)@.remove_keys(
                page_range(start_page as int, end_page as int),
            ),
            !r ==> *final(self) == *old(self),
    {
        // First pass: reject unless every page of the range is mapped.
        let mut v: usize = start_page;
        while v < end_page
            invariant
                start_page <= v,
                v <= end_page || v == start_page,
                *self == *old(self),
                forall|u: nat| start_page <= u < v ==> self@.contains_key(u),
            decreases end_page - v,
        {
            if !self.contains_page(v) {
                proof {
                    assert(start_page as nat <= v as nat && (v as nat) < end_page as nat
                        && !self@.contains_key(v as nat));
                }
                return false;
            }
            v += 1;
        }
        // Second pass: keep exactly the entries whose page lies outside the
        // range.
        let ghost m0 = self@;
        let ghost r_set = page_range(start_page as int, end_page as int);
        let mut kept: Vec<PageEntry> = Vec::new();
        let mut i: usize = 0;
        proof {
            assert(map_of(kept@) =~= map_of(self.entries@.take(0)).remove_keys(r_set));
        }
        while i < self.entries.len()
            invariant
                i <= self.entries.len(),
                *self == *old(self),
                m0 == self@,
                r_set == page_range(start_page as int, end_page as int),
                map_of(kept@) == map_of(self.entries@.take(i as int)).remove_keys(r_set),
            decreases self.entries.len() - i,
        {
            let e = self.entries[i];
            let ghost prefix = self.entries@.take(i as int);
            proof {
                assert(self.entries@.take(i as int + 1) =~= prefix.push(e));
                lemma_map_of_push(prefix, e);
            }
            if e.vpn < start_page || e.vpn >= end_page {
                let ghost kept_prev = kept@;
                kept.push(e);
                proof {
                    lemma_map_of_push(kept_prev, e);
                    assert(map_of(kept@) =~= map_of(self.entries@.take(i as int + 1)).remove_keys(
                        r_set,
                    ));
                }
            } else {
                proof {
                    assert(map_of(kept@) =~= map_of(self.entries@.take(i as int + 1)).remove_keys(
                        r_set,
                    ));
                }
            }
            i += 1;
        }
        proof {
            assert(self.entries@.take(self.entries@.len() as int) =~= self.entries@);
        }
        self.entries = kept;
        true
    }
}

} // verus!
