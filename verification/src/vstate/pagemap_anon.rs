//! Page bitmaps and the guest-physical ranges they describe.

use vstd::prelude::*;

verus! {

/// A range of guest-physical memory.
#[derive(Debug, Clone, Copy, PartialEq, Eq, Structural)]
pub struct MemoryRange {
    /// Guest-physical address of the first byte.
    pub gpa: u64,
    /// Length in bytes.
    pub length: u64,
}

impl View for MemoryRange {
    type V = (int, int);

    /// The range as its first address and its length.
    open spec fn view(&self) -> (int, int) {
        (self.gpa as int, self.length as int)
    }
}

/// Errors of the pagemap-anon ledger.
#[derive(Debug)]
pub enum PagemapAnonError {
    /// Failed to open `path`.
    OpenFailed {
        /// Path that failed to open.
        path: String,
        /// Underlying IO error.
        source: std::io::Error,
    },
    /// Failed to get the host address of a guest memory region.
    GetHostAddressFailed,
    /// Page frame numbers are hidden without CAP_SYS_ADMIN.
    NoCapSysAdmin,
    /// Any other failure of the ledger, in words.
    Other(String),
}

/// What a list of ranges stands for: first address and length of each.
pub open spec fn ranges_view(ranges: Seq<MemoryRange>) -> Seq<(int, int)> {
    ranges.map_values(|r: MemoryRange| r@)
}

/// Whether `pages` pages from `gpa` on lie in the address space, and their bytes can be counted.
pub open spec fn pages_fit(gpa: int, pages: int, page_size: int) -> bool {
    &&& gpa + pages * page_size <= u64::MAX + 1
    &&& pages * page_size <= u64::MAX
}

/// How many pages of a bitmap are set.
pub open spec fn count_set(bits: Seq<bool>) -> nat
    decreases bits.len(),
{
    if bits.len() == 0 {
        0
    } else {
        count_set(bits.drop_last()) + if bits.last() { 1nat } else { 0nat }
    }
}

/// The ranges of guest memory that a page bitmap describes: one range for each maximal run of set
/// pages, lowest address first. Page `i` starts `i` pages above `gpa`.
pub open spec fn coalesced(gpa: int, bits: Seq<bool>, page_size: int) -> Seq<(int, int)>
    decreases bits.len(),
{
    if bits.len() == 0 {
        Seq::empty()
    } else {
        let before = coalesced(gpa, bits.drop_last(), page_size);
        let page = bits.len() - 1;
        if !bits.last() {
            before
        } else if page > 0 && bits[page - 1] {
            before.drop_last().push((before.last().0, before.last().1 + page_size))
        } else {
            before.push((gpa + page * page_size, page_size))
        }
    }
}

/// Whether some range of the list holds the address.
pub open spec fn covers(ranges: Seq<(int, int)>, addr: int) -> bool {
    exists|k: int|
        0 <= k < ranges.len() && (#[trigger] ranges[k]).0 <= addr < ranges[k].0 + ranges[k].1
}

/// The bytes that a list of ranges holds.
pub open spec fn total_length(ranges: Seq<(int, int)>) -> int
    decreases ranges.len(),
{
    if ranges.len() == 0 {
        0
    } else {
        total_length(ranges.drop_last()) + ranges.last().1
    }
}

/// A bitmap whose last page is set has a last range, and that range ends with the bitmap.
proof fn lemma_coalesced_last(gpa: int, bits: Seq<bool>, page_size: int)
    requires
        bits.len() > 0,
        bits.last(),
        page_size > 0,
    ensures
        coalesced(gpa, bits, page_size).len() > 0,
        coalesced(gpa, bits, page_size).last().0 + coalesced(gpa, bits, page_size).last().1 == gpa
            + bits.len() * page_size,
        coalesced(gpa, bits, page_size).last().1 > 0,
        coalesced(gpa, bits, page_size).last().0 >= gpa,
    decreases bits.len(),
{
    let page = bits.len() - 1;
    assert(bits.len() * page_size == page * page_size + page_size) by (nonlinear_arith)
        requires
            page == bits.len() - 1,
    ;
    assert(page * page_size >= 0) by (nonlinear_arith)
        requires
            page >= 0,
            page_size > 0,
    ;
    if page > 0 && bits[page - 1] {
        assert(bits.drop_last().last() == bits[page - 1]);
        lemma_coalesced_last(gpa, bits.drop_last(), page_size);
    }
}

/// A bitmap has no more set pages than pages.
pub proof fn law_count_set_bound(bits: Seq<bool>)
    ensures
        count_set(bits) <= bits.len(),
    decreases bits.len(),
{
    if bits.len() > 0 {
        law_count_set_bound(bits.drop_last());
    }
}

proof fn lemma_covers_push(ranges: Seq<(int, int)>, range: (int, int), addr: int)
    ensures
        covers(ranges.push(range), addr) <==> covers(ranges, addr) || range.0 <= addr < range.0
            + range.1,
{
    let longer = ranges.push(range);
    if covers(ranges, addr) {
        let k = choose|k: int|
            0 <= k < ranges.len() && (#[trigger] ranges[k]).0 <= addr < ranges[k].0 + ranges[k].1;
        assert(longer[k] == ranges[k]);
    }
    if range.0 <= addr < range.0 + range.1 {
        assert(longer[ranges.len() as int] == range);
    }
    if covers(longer, addr) {
        let k = choose|k: int|
            0 <= k < longer.len() && (#[trigger] longer[k]).0 <= addr < longer[k].0 + longer[k].1;
        if k < ranges.len() {
            assert(longer[k] == ranges[k]);
        }
    }
}

/// The coalesced ranges hold an address exactly when the page of the bitmap that the address lies
/// in is set: no set page is lost and no clear page, and nothing outside the bitmap, is added.
pub proof fn law_coalesced_holds_exactly_the_set_pages(
    gpa: int,
    bits: Seq<bool>,
    page_size: int,
    addr: int,
)
    requires
        page_size > 0,
    ensures
        covers(coalesced(gpa, bits, page_size), addr) <==> {
            &&& 0 <= (addr - gpa) / page_size < bits.len()
            &&& bits[(addr - gpa) / page_size]
        },
    decreases bits.len(),
{
    let page = bits.len() - 1;
    let at = (addr - gpa) / page_size;
    if bits.len() > 0 {
        let fewer = bits.drop_last();
        let before = coalesced(gpa, fewer, page_size);
        law_coalesced_holds_exactly_the_set_pages(gpa, fewer, page_size, addr);
        assert(at == page <==> gpa + page * page_size <= addr < gpa + page * page_size + page_size)
            by {
            vstd::arithmetic::div_mod::lemma_fundamental_div_mod(addr - gpa, page_size);
            assert(page_size * at == at * page_size) by (nonlinear_arith);
            if at < page {
                assert(at * page_size + page_size <= page * page_size) by (nonlinear_arith)
                    requires
                        at < page,
                        page_size > 0,
                ;
            }
            if at > page {
                assert(at * page_size >= page * page_size + page_size) by (nonlinear_arith)
                    requires
                        at > page,
                        page_size > 0,
                ;
            }
        }
        assert(forall|j: int| 0 <= j < page ==> fewer[j] == bits[j]);
        if bits.last() {
            if page > 0 && bits[page - 1] {
                assert(fewer.last() == bits[page - 1]);
                lemma_coalesced_last(gpa, fewer, page_size);
                let grown = (before.last().0, before.last().1 + page_size);
                lemma_covers_push(before.drop_last(), grown, addr);
                lemma_covers_push(before.drop_last(), before.last(), addr);
                assert(before.drop_last().push(before.last()) =~= before);
            } else {
                lemma_covers_push(before, (gpa + page * page_size, page_size), addr);
            }
        }
    }
}

/// The coalesced ranges are whole pages, lie in ascending order, and two neighbours have at least
/// one page between them: no two ranges could be merged.
pub proof fn law_coalesced_ranges_are_maximal(gpa: int, bits: Seq<bool>, page_size: int)
    requires
        page_size > 0,
    ensures
        ({
            let ranges = coalesced(gpa, bits, page_size);
            &&& forall|k: int|
                0 <= k < ranges.len() ==> {
                    &&& (#[trigger] ranges[k]).0 >= gpa
                    &&& (ranges[k].0 - gpa) % page_size == 0
                    &&& ranges[k].1 > 0
                    &&& ranges[k].1 % page_size == 0
                    &&& ranges[k].0 + ranges[k].1 <= gpa + bits.len() * page_size
                }
            &&& forall|j: int, k: int|
                0 <= j < k < ranges.len() ==> (#[trigger] ranges[j]).0 + ranges[j].1 + page_size <= (
                #[trigger] ranges[k]).0
        }),
    decreases bits.len(),
{
    if bits.len() > 0 {
        let page = bits.len() - 1;
        let fewer = bits.drop_last();
        let before = coalesced(gpa, fewer, page_size);
        let ranges = coalesced(gpa, bits, page_size);
        law_coalesced_ranges_are_maximal(gpa, fewer, page_size);
        assert(bits.len() * page_size == page * page_size + page_size) by (nonlinear_arith)
            requires
                page == bits.len() - 1,
        ;
        assert(fewer.len() * page_size == page * page_size) by (nonlinear_arith)
            requires
                page == fewer.len(),
        ;
        assert(page * page_size >= 0) by (nonlinear_arith)
            requires
                page >= 0,
                page_size > 0,
        ;
        if bits.last() {
            if page > 0 && bits[page - 1] {
                assert(fewer.last() == bits[page - 1]);
                lemma_coalesced_last(gpa, fewer, page_size);
                let old_last = before[before.len() - 1];
                assert((old_last.1 + page_size) % page_size == 0) by {
                    vstd::arithmetic::div_mod::lemma_mod_add_multiples_vanish(
                        old_last.1,
                        page_size,
                    );
                }
                assert forall|k: int| 0 <= k < ranges.len() - 1 implies #[trigger] ranges[k]
                    == before[k] by {}
                assert(ranges[ranges.len() - 1] == (old_last.0, old_last.1 + page_size));
            } else {
                assert((page * page_size) % page_size == 0) by {
                    vstd::arithmetic::div_mod::lemma_mod_multiples_basic(page, page_size);
                }
                assert(page_size % page_size == 0) by {
                    vstd::arithmetic::div_mod::lemma_mod_self_0(page_size);
                }
                assert forall|k: int| 0 <= k < ranges.len() - 1 implies #[trigger] ranges[k]
                    == before[k] by {}
                if page > 0 {
                    lemma_coalesced_stops_before_clear_page(gpa, fewer, page_size);
                }
            }
        }
    }
}

/// When the last page is clear, every range ends at or before it.
proof fn lemma_coalesced_stops_before_clear_page(gpa: int, bits: Seq<bool>, page_size: int)
    requires
        page_size > 0,
        bits.len() > 0,
        !bits.last(),
    ensures
        forall|k: int|
            0 <= k < coalesced(gpa, bits, page_size).len() ==> (#[trigger] coalesced(
                gpa,
                bits,
                page_size,
            )[k]).0 + coalesced(gpa, bits, page_size)[k].1 + page_size <= gpa + bits.len()
                * page_size,
    decreases bits.len(),
{
    let fewer = bits.drop_last();
    law_coalesced_ranges_are_maximal(gpa, fewer, page_size);
    assert(bits.len() * page_size == fewer.len() * page_size + page_size) by (nonlinear_arith)
        requires
            fewer.len() == bits.len() - 1,
    ;
    let ranges = coalesced(gpa, fewer, page_size);
    assert(coalesced(gpa, bits, page_size) == ranges);
    assert forall|k: int| 0 <= k < ranges.len() implies (#[trigger] ranges[k]).0 + ranges[k].1
        + page_size <= gpa + bits.len() * page_size by {}
}

proof fn lemma_total_length_push(ranges: Seq<(int, int)>, range: (int, int))
    ensures
        total_length(ranges.push(range)) == total_length(ranges) + range.1,
{
    assert(ranges.push(range).drop_last() =~= ranges);
}

/// The coalesced ranges hold one page of bytes for each set page.
pub proof fn law_coalesced_length(gpa: int, bits: Seq<bool>, page_size: int)
    requires
        page_size > 0,
    ensures
        total_length(coalesced(gpa, bits, page_size)) == count_set(bits) * page_size,
    decreases bits.len(),
{
    if bits.len() > 0 {
        let page = bits.len() - 1;
        let fewer = bits.drop_last();
        let before = coalesced(gpa, fewer, page_size);
        law_coalesced_length(gpa, fewer, page_size);
        if bits.last() {
            assert(count_set(bits) * page_size == count_set(fewer) * page_size + page_size)
                by (nonlinear_arith)
                requires
                    count_set(bits) == count_set(fewer) + 1,
            ;
            if page > 0 && bits[page - 1] {
                assert(fewer.last() == bits[page - 1]);
                lemma_coalesced_last(gpa, fewer, page_size);
                lemma_total_length_push(
                    before.drop_last(),
                    (before.last().0, before.last().1 + page_size),
                );
            } else {
                lemma_total_length_push(before, (gpa + page * page_size, page_size));
            }
        }
    } else {
        assert(count_set(bits) * page_size == 0) by (nonlinear_arith)
            requires
                count_set(bits) == 0,
        ;
    }
}

/// A bitmap without a set page has no ranges.
pub proof fn law_nothing_set_gives_no_ranges(gpa: int, bits: Seq<bool>, page_size: int)
    requires
        forall|i: int| 0 <= i < bits.len() ==> !bits[i],
    ensures
        coalesced(gpa, bits, page_size) == Seq::<(int, int)>::empty(),
        count_set(bits) == 0,
    decreases bits.len(),
{
    if bits.len() > 0 {
        law_nothing_set_gives_no_ranges(gpa, bits.drop_last(), page_size);
    }
}

/// Whether an address lies in a page, counted from `gpa` on.
pub open spec fn in_page(gpa: int, page: int, page_size: int, addr: int) -> bool {
    gpa + page * page_size <= addr < gpa + (page + 1) * page_size
}

/// Whether an address lies in a page that is set.
pub open spec fn in_a_set_page(gpa: int, bits: Seq<bool>, page_size: int, addr: int) -> bool {
    exists|page: int|
        0 <= page < bits.len() && #[trigger] bits[page] && in_page(gpa, page, page_size, addr)
}

/// Whether one of the ranges holds an address.
pub open spec fn holds_address(ranges: Seq<MemoryRange>, addr: int) -> bool {
    exists|k: int|
        0 <= k < ranges.len() && (#[trigger] ranges[k]).gpa <= addr < ranges[k].gpa
            + ranges[k].length
}

/// An address lies in the page that its distance from `gpa` says, and in no other.
pub proof fn law_address_lies_in_one_page(gpa: int, page: int, page_size: int, addr: int)
    requires
        page_size > 0,
    ensures
        in_page(gpa, page, page_size, addr) <==> page == (addr - gpa) / page_size,
{
    let at = (addr - gpa) / page_size;
    vstd::arithmetic::div_mod::lemma_fundamental_div_mod(addr - gpa, page_size);
    assert(page_size * at == at * page_size) by (nonlinear_arith);
    assert((page + 1) * page_size == page * page_size + page_size) by (nonlinear_arith);
    if at < page {
        assert(at * page_size + page_size <= page * page_size) by (nonlinear_arith)
            requires
                at < page,
                page_size > 0,
        ;
    }
    if at > page {
        assert(at * page_size >= page * page_size + page_size) by (nonlinear_arith)
            requires
                at > page,
                page_size > 0,
        ;
    }
}

/// Ranges that a bitmap is merged into hold an address exactly when it lies in a page that is set.
pub proof fn law_ranges_hold_just_the_set_pages(
    gpa: int,
    bits: Seq<bool>,
    page_size: int,
    ranges: Seq<MemoryRange>,
    addr: int,
)
    requires
        page_size > 0,
        ranges_view(ranges) == coalesced(gpa, bits, page_size),
    ensures
        holds_address(ranges, addr) <==> in_a_set_page(gpa, bits, page_size, addr),
{
    let found = ranges_view(ranges);
    let at = (addr - gpa) / page_size;
    law_coalesced_holds_exactly_the_set_pages(gpa, bits, page_size, addr);
    law_address_lies_in_one_page(gpa, at, page_size, addr);
    if covers(found, addr) {
        let k = choose|k: int|
            0 <= k < found.len() && (#[trigger] found[k]).0 <= addr < found[k].0 + found[k].1;
        assert(ranges[k].gpa <= addr < ranges[k].gpa + ranges[k].length);
        assert(bits[at]);
    }
    if holds_address(ranges, addr) {
        let k = choose|k: int|
            0 <= k < ranges.len() && (#[trigger] ranges[k]).gpa <= addr < ranges[k].gpa
                + ranges[k].length;
        assert(found[k] == ranges[k]@);
    }
    if in_a_set_page(gpa, bits, page_size, addr) {
        let page = choose|page: int|
            0 <= page < bits.len() && #[trigger] bits[page] && in_page(gpa, page, page_size, addr);
        law_address_lies_in_one_page(gpa, page, page_size, addr);
    }
}

/// The count of a bitmap is the number of its pages that are set.
pub proof fn law_count_set_counts_the_set_pages(bits: Seq<bool>)
    ensures
        count_set(bits) == Set::new(|page: int| 0 <= page < bits.len() && bits[page]).len(),
        Set::new(|page: int| 0 <= page < bits.len() && bits[page]).finite(),
    decreases bits.len(),
{
    let set = Set::new(|page: int| 0 <= page < bits.len() && bits[page]);
    if bits.len() == 0 {
        assert(set =~= Set::empty());
    } else {
        let fewer = bits.drop_last();
        let less = Set::new(|page: int| 0 <= page < fewer.len() && fewer[page]);
        law_count_set_counts_the_set_pages(fewer);
        if bits.last() {
            assert(set =~= less.insert(bits.len() - 1));
        } else {
            assert(set =~= less);
        }
    }
}

/// Merges the set pages of a bitmap into ranges of guest memory.
///
/// Returns the ranges, lowest address first, and the number of set pages.
pub fn coalesce_pages_to_ranges(gpa: u64, pages: &[bool], page_size: u64) -> (r: (
    Vec<MemoryRange>,
    u64,
))
    requires
        page_size > 0,
        pages_fit(gpa as int, pages@.len() as int, page_size as int),
    ensures
        ranges_view(r.0@) == coalesced(gpa as int, pages@, page_size as int),
        r.1 == count_set(pages@),
        r.1 == Set::new(|page: int| 0 <= page < pages@.len() && pages@[page]).len(),
        forall|addr: int| #[trigger]
            holds_address(r.0@, addr) <==> in_a_set_page(
                gpa as int,
                pages@,
                page_size as int,
                addr,
            ),
        forall|j: int, k: int|
            0 <= j < k < r.0@.len() ==> (#[trigger] r.0@[j]).gpa + r.0@[j].length + page_size <= (
            #[trigger] r.0@[k]).gpa,
        forall|k: int| 0 <= k < r.0@.len() ==> (#[trigger] r.0@[k]).length > 0,
{
    let mut ranges: Vec<MemoryRange> = Vec::new();
    let mut count: u64 = 0;
    let mut page: usize = 0;
    while page < pages.len()
        invariant
            page <= pages@.len(),
            page_size > 0,
            pages_fit(gpa as int, pages@.len() as int, page_size as int),
            ranges_view(ranges@) == coalesced(gpa as int, pages@.take(page as int), page_size as int),
            count == count_set(pages@.take(page as int)),
        decreases pages@.len() - page,
    {
        let ghost seen = pages@.take(page as int);
        let ghost next = pages@.take(page + 1);
        proof {
            assert(next.drop_last() =~= seen);
            assert(next.last() == pages@[page as int]);
            law_count_set_bound(seen);
            assert(pages@.len() * page_size >= (page + 1) * page_size) by (nonlinear_arith)
                requires
                    page + 1 <= pages@.len(),
                    page_size > 0,
            ;
            assert((page + 1) * page_size == page * page_size + page_size) by (nonlinear_arith);
            assert(pages@.len() <= u64::MAX) by (nonlinear_arith)
                requires
                    pages@.len() * page_size <= u64::MAX,
                    page_size > 0,
            ;
            assert(0 <= page * page_size) by (nonlinear_arith)
                requires
                    page_size > 0,
            ;
        }
        if pages[page] {
            count = count + 1;
            if page > 0 && pages[page - 1] {
                proof {
                    assert(seen.last() == pages@[page - 1]);
                    lemma_coalesced_last(gpa as int, seen, page_size as int);
                    assert(next[page - 1] == pages@[page - 1]);
                }
                let ghost before = ranges@;
                if let Some(last) = ranges.pop() {
                    assert(last@ == ranges_view(before).last());
                    ranges.push(MemoryRange { gpa: last.gpa, length: last.length + page_size });
                    assert(ranges_view(ranges@) =~= ranges_view(before).drop_last().push(
                        (last.gpa as int, last.length + page_size as int),
                    ));
                }
            } else {
                proof {
                    if page > 0 {
                        assert(next[page - 1] == pages@[page - 1]);
                    }
                }
                let ghost before = ranges@;
                let range = MemoryRange { gpa: gpa + page as u64 * page_size, length: page_size };
                ranges.push(range);
                assert(ranges_view(ranges@) =~= ranges_view(before).push(range@));
            }
        }
        page = page + 1;
    }
    proof {
        assert(pages@.take(page as int) =~= pages@);
        let found = ranges_view(ranges@);
        law_count_set_counts_the_set_pages(pages@);
        law_coalesced_ranges_are_maximal(gpa as int, pages@, page_size as int);
        assert forall|k: int| 0 <= k < ranges@.len() implies (#[trigger] ranges@[k]).length > 0 by {
            assert(found[k] == ranges@[k]@);
        }
        assert forall|j: int, k: int| 0 <= j < k < ranges@.len() implies (#[trigger] ranges@[j]).gpa
            + ranges@[j].length + page_size <= (#[trigger] ranges@[k]).gpa by {
            assert(found[j] == ranges@[j]@ && found[k] == ranges@[k]@);
        }
        assert forall|addr: int| #[trigger]
            holds_address(ranges@, addr) <==> in_a_set_page(
                gpa as int,
                pages@,
                page_size as int,
                addr,
            ) by {
            law_ranges_hold_just_the_set_pages(gpa as int, pages@, page_size as int, ranges@, addr);
        }
    }
    (ranges, count)
}

} // verus!
