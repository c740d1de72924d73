//! The guest memory that a snapshot has to write: the ranges whose pages were written.

use super::error::{IntersectionError, PagemapReadFailure, SoftDirtyError};
use super::pages::{self, get_soft_dirty_pages, PagemapRead};
use crate::outside::host_address;
use crate::vstate::pagemap_anon::{
    self, coalesce_pages_to_ranges, MemoryRange, PagemapAnonError,
};
use vstd::prelude::*;

verus! {

/// Statistics about the result of a filter.
#[derive(Debug, Clone, Copy, PartialEq, Eq, Structural)]
pub struct SoftDirtyStats {
    /// Total number of pages examined.
    pub total_pages: u64,
    /// Pages dirtied since the bits were last cleared (the delta window).
    pub dirty_pages: u64,
    /// Total bytes in all input ranges.
    pub total_bytes: u64,
    /// Bytes that must be written out.
    pub dirty_bytes: u64,
}

impl Default for SoftDirtyStats {
    fn default() -> (stats: Self)
        ensures
            stats == (SoftDirtyStats {
                total_pages: 0,
                dirty_pages: 0,
                total_bytes: 0,
                dirty_bytes: 0,
            }),
    {
        SoftDirtyStats { total_pages: 0, dirty_pages: 0, total_bytes: 0, dirty_bytes: 0 }
    }
}

/// How many pages a range takes.
pub open spec fn pages_of(range: MemoryRange, page_size: int) -> int {
    pages::page_count(range.length as int, page_size)
}

/// How many pages the ranges take.
pub open spec fn total_pages(ranges: Seq<MemoryRange>, page_size: int) -> int
    decreases ranges.len(),
{
    if ranges.len() == 0 {
        0
    } else {
        total_pages(ranges.drop_last(), page_size) + pages_of(ranges.last(), page_size)
    }
}

/// How many bytes the ranges hold.
pub open spec fn total_bytes(ranges: Seq<MemoryRange>) -> int
    decreases ranges.len(),
{
    if ranges.len() == 0 {
        0
    } else {
        total_bytes(ranges.drop_last()) + ranges.last().length
    }
}

/// How many pages are set in the bitmaps of the ranges.
pub open spec fn set_pages(maps: Seq<Seq<bool>>) -> int
    decreases maps.len(),
{
    if maps.len() == 0 {
        0
    } else {
        set_pages(maps.drop_last()) + pagemap_anon::count_set(maps.last())
    }
}

/// The ranges of guest memory that the set pages of the bitmaps make up, one bitmap for each of the
/// input ranges, in the order of the input.
pub open spec fn delta(ranges: Seq<MemoryRange>, maps: Seq<Seq<bool>>, page_size: int) -> Seq<
    (int, int),
>
    decreases ranges.len(),
{
    if ranges.len() == 0 {
        Seq::empty()
    } else {
        delta(ranges.drop_last(), maps.drop_last(), page_size)
            + pagemap_anon::coalesced(
            ranges.last().gpa as int,
            maps.last(),
            page_size,
        )
    }
}

/// The statistics that go with the bitmaps of the ranges.
pub open spec fn stats_match(
    stats: SoftDirtyStats,
    ranges: Seq<MemoryRange>,
    maps: Seq<Seq<bool>>,
    page_size: int,
) -> bool {
    &&& stats.total_pages == total_pages(ranges, page_size)
    &&& stats.total_bytes == total_bytes(ranges)
    &&& stats.dirty_pages == set_pages(maps)
    &&& stats.dirty_bytes == set_pages(maps) * page_size
}

/// Whether a filter hands out what the bitmaps of the ranges say.
pub open spec fn filtered(
    out: Seq<MemoryRange>,
    stats: SoftDirtyStats,
    ranges: Seq<MemoryRange>,
    maps: Seq<Seq<bool>>,
    page_size: int,
) -> bool {
    &&& maps.len() == ranges.len()
    &&& pagemap_anon::ranges_view(out) == delta(ranges, maps, page_size)
    &&& stats_match(stats, ranges, maps, page_size)
}

/// Whether the pages of the ranges can be addressed and their bytes counted.
pub open spec fn ranges_fit(ranges: Seq<MemoryRange>, page_size: int) -> bool {
    &&& page_size >= 8
    &&& total_pages(ranges, page_size) * page_size <= u64::MAX
    &&& forall|i: int|
        0 <= i < ranges.len() ==> {
            &&& pagemap_anon::pages_fit(
                (#[trigger] ranges[i]).gpa as int,
                pages_of(ranges[i], page_size),
                page_size,
            )
            &&& pages_of(ranges[i], page_size) * 8 <= usize::MAX
        }
}

/// Whether a pagemap reader can be asked for any stretch and hands back as many bytes as it was
/// asked for.
pub open spec fn reads_any_stretch<R: Fn(PagemapRead) -> Result<Vec<u8>, PagemapReadFailure>>(
    read: R,
) -> bool {
    forall|stretch: PagemapRead| #[trigger] pages::reads_exactly(read, stretch)
}

/// Whether `bits` are the soft-dirty pages that the pagemap may report for a range of guest memory.
pub open spec fn range_dirty<R: Fn(PagemapRead) -> Result<Vec<u8>, PagemapReadFailure>>(
    host: Map<u64, u64>,
    range: MemoryRange,
    page_size: u64,
    read: R,
    bits: Seq<bool>,
) -> bool {
    &&& host.contains_key(range.gpa)
    &&& pages::reports_pages(host[range.gpa], range.length, page_size, read, bits)
}

/// Whether `error` is what the lookup of a range of guest memory may fail with.
pub open spec fn range_error<R: Fn(PagemapRead) -> Result<Vec<u8>, PagemapReadFailure>>(
    host: Map<u64, u64>,
    range: MemoryRange,
    page_size: u64,
    read: R,
    error: SoftDirtyError,
) -> bool {
    if host.contains_key(range.gpa) {
        pages::reports_error(host[range.gpa], range.length, page_size, read, error)
    } else {
        error == SoftDirtyError::GetHostAddressFailed
    }
}

/// Whether the bitmaps are what the pagemap may report for the ranges, one each.
pub open spec fn all_dirty<R: Fn(PagemapRead) -> Result<Vec<u8>, PagemapReadFailure>>(
    host: Map<u64, u64>,
    ranges: Seq<MemoryRange>,
    page_size: u64,
    read: R,
    maps: Seq<Seq<bool>>,
) -> bool {
    &&& maps.len() == ranges.len()
    &&& forall|i: int|
        0 <= i < ranges.len() ==> range_dirty(
            host,
            ranges[i],
            page_size,
            read,
            #[trigger] maps[i],
        )
}

/// Whether a filter of the soft-dirty pages may hand out these ranges and statistics.
pub open spec fn soft_dirty_delta<R: Fn(PagemapRead) -> Result<Vec<u8>, PagemapReadFailure>>(
    host: Map<u64, u64>,
    ranges: Seq<MemoryRange>,
    page_size: u64,
    read: R,
    out: Seq<MemoryRange>,
    stats: SoftDirtyStats,
) -> bool {
    exists|maps: Seq<Seq<bool>>|
        {
            &&& all_dirty(host, ranges, page_size, read, maps)
            &&& #[trigger] filtered(out, stats, ranges, maps, page_size as int)
        }
}

/// Whether a filter of the soft-dirty pages may fail with this error: the lookup of some range
/// fails with it, and those before it succeed.
pub open spec fn soft_dirty_delta_error<
    R: Fn(PagemapRead) -> Result<Vec<u8>, PagemapReadFailure>,
>(
    host: Map<u64, u64>,
    ranges: Seq<MemoryRange>,
    page_size: u64,
    read: R,
    error: SoftDirtyError,
) -> bool {
    exists|failed: int, maps: Seq<Seq<bool>>|
        {
            &&& 0 <= failed < ranges.len()
            &&& #[trigger] all_dirty(host, ranges.take(failed), page_size, read, maps)
            &&& range_error(host, ranges[failed], page_size, read, error)
        }
}

/// The pages that are set in both bitmaps, as far as both reach.
pub open spec fn both(anon: Seq<bool>, dirty: Seq<bool>) -> Seq<bool> {
    Seq::new(
        if anon.len() <= dirty.len() {
            anon.len()
        } else {
            dirty.len()
        },
        |i: int| anon[i] && dirty[i],
    )
}

/// Whether `bits` are the pages of a range of guest memory that may be reported both as anonymous
/// and as soft-dirty.
pub open spec fn range_both<
    R: Fn(PagemapRead) -> Result<Vec<u8>, PagemapReadFailure>,
    A: Fn(u64, u64) -> Result<Vec<bool>, PagemapAnonError>,
>(
    host: Map<u64, u64>,
    range: MemoryRange,
    page_size: u64,
    anon_pages: A,
    read: R,
    bits: Seq<bool>,
) -> bool {
    exists|anon: Vec<bool>, dirty: Seq<bool>|
        {
            &&& call_ensures(
                anon_pages,
                (host[range.gpa], range.length),
                Ok::<Vec<bool>, PagemapAnonError>(anon),
            )
            &&& range_dirty(host, range, page_size, read, dirty)
            &&& bits == #[trigger] both(anon@, dirty)
        }
}

/// Whether `error` is what the lookup of a range of guest memory in both ledgers may fail with.
pub open spec fn range_both_error<
    R: Fn(PagemapRead) -> Result<Vec<u8>, PagemapReadFailure>,
    A: Fn(u64, u64) -> Result<Vec<bool>, PagemapAnonError>,
>(
    host: Map<u64, u64>,
    range: MemoryRange,
    page_size: u64,
    anon_pages: A,
    read: R,
    error: IntersectionError,
) -> bool {
    if host.contains_key(range.gpa) {
        match error {
            IntersectionError::Anon(e) => call_ensures(
                anon_pages,
                (host[range.gpa], range.length),
                Err::<Vec<bool>, PagemapAnonError>(e),
            ),
            IntersectionError::SoftDirty(e) => {
                &&& exists|anon: Vec<bool>|
                    call_ensures(
                        anon_pages,
                        (host[range.gpa], range.length),
                        Ok::<Vec<bool>, PagemapAnonError>(anon),
                    )
                &&& pages::reports_error(
                    host[range.gpa],
                    range.length,
                    page_size,
                    read,
                    e,
                )
            },
        }
    } else {
        error == IntersectionError::Anon(PagemapAnonError::GetHostAddressFailed)
    }
}

/// Whether the bitmaps are what both ledgers may report for the ranges, one each.
pub open spec fn all_both<
    R: Fn(PagemapRead) -> Result<Vec<u8>, PagemapReadFailure>,
    A: Fn(u64, u64) -> Result<Vec<bool>, PagemapAnonError>,
>(
    host: Map<u64, u64>,
    ranges: Seq<MemoryRange>,
    page_size: u64,
    anon_pages: A,
    read: R,
    maps: Seq<Seq<bool>>,
) -> bool {
    &&& maps.len() == ranges.len()
    &&& forall|i: int|
        0 <= i < ranges.len() ==> range_both(
            host,
            ranges[i],
            page_size,
            anon_pages,
            read,
            #[trigger] maps[i],
        )
}

/// Whether a filter of both ledgers may hand out these ranges and statistics.
pub open spec fn intersection_delta<
    R: Fn(PagemapRead) -> Result<Vec<u8>, PagemapReadFailure>,
    A: Fn(u64, u64) -> Result<Vec<bool>, PagemapAnonError>,
>(
    host: Map<u64, u64>,
    ranges: Seq<MemoryRange>,
    page_size: u64,
    anon_pages: A,
    read: R,
    out: Seq<MemoryRange>,
    stats: SoftDirtyStats,
) -> bool {
    exists|maps: Seq<Seq<bool>>|
        {
            &&& all_both(host, ranges, page_size, anon_pages, read, maps)
            &&& #[trigger] filtered(out, stats, ranges, maps, page_size as int)
        }
}

/// Whether a filter of both ledgers may fail with this error: the lookup of some range fails with
/// it, and those before it succeed.
pub open spec fn intersection_delta_error<
    R: Fn(PagemapRead) -> Result<Vec<u8>, PagemapReadFailure>,
    A: Fn(u64, u64) -> Result<Vec<bool>, PagemapAnonError>,
>(
    host: Map<u64, u64>,
    ranges: Seq<MemoryRange>,
    page_size: u64,
    anon_pages: A,
    read: R,
    error: IntersectionError,
) -> bool {
    exists|failed: int, maps: Seq<Seq<bool>>|
        {
            &&& 0 <= failed < ranges.len()
            &&& #[trigger] all_both(host, ranges.take(failed), page_size, anon_pages, read, maps)
            &&& range_both_error(host, ranges[failed], page_size, anon_pages, read, error)
        }
}

/// Whether the anon ledger can be asked for any region.
pub open spec fn anon_answers<A: Fn(u64, u64) -> Result<Vec<bool>, PagemapAnonError>>(
    anon_pages: A,
) -> bool {
    forall|host_addr: u64, length: u64| #[trigger] call_requires(anon_pages, (host_addr, length))
}

proof fn lemma_page_count_bounds(length: int, page_size: int)
    requires
        page_size > 0,
        length >= 0,
    ensures
        pages::page_count(length, page_size) >= 0,
        length <= pages::page_count(length, page_size) * page_size,
        length % page_size == 0 ==> length == pages::page_count(length, page_size)
            * page_size,
{
    let q = length / page_size;
    vstd::arithmetic::div_mod::lemma_fundamental_div_mod(length, page_size);
    assert(page_size * q == q * page_size) by (nonlinear_arith);
    assert((q + 1) * page_size == q * page_size + page_size) by (nonlinear_arith);
    assert(q >= 0) by (nonlinear_arith)
        requires
            q == length / page_size,
            length >= 0,
            page_size > 0,
    ;
}

/// Any host address has a place in the pagemap file when pages are at least as large as entries.
proof fn lemma_host_page_addressable(host_addr: u64, page_size: u64)
    requires
        page_size >= 8,
    ensures
        host_addr as int / page_size as int * 8 <= u64::MAX,
{
    let q = host_addr as int / page_size as int;
    vstd::arithmetic::div_mod::lemma_fundamental_div_mod(host_addr as int, page_size as int);
    assert(q * 8 <= host_addr) by (nonlinear_arith)
        requires
            host_addr == page_size * q + host_addr as int % page_size as int,
            page_size >= 8,
            q >= 0 || host_addr < 0,
            host_addr as int % page_size as int >= 0,
            q == host_addr as int / page_size as int,
            host_addr >= 0,
    ;
}

proof fn lemma_totals_of_prefix(ranges: Seq<MemoryRange>, n: int, page_size: int)
    requires
        0 <= n <= ranges.len(),
        page_size > 0,
    ensures
        0 <= total_pages(ranges.take(n), page_size) <= total_pages(ranges, page_size),
        0 <= total_bytes(ranges.take(n)),
        total_bytes(ranges.take(n)) <= total_pages(ranges.take(n), page_size) * page_size,
    decreases ranges.len(),
{
    if ranges.len() == 0 {
        assert(ranges.take(n) =~= ranges);
        assert(0 * page_size == 0) by (nonlinear_arith);
    } else {
        let fewer = ranges.drop_last();
        lemma_page_count_bounds(ranges.last().length as int, page_size);
        if n == ranges.len() {
            assert(ranges.take(n) =~= ranges);
            assert(fewer.take(fewer.len() as int) =~= fewer);
            lemma_totals_of_prefix(fewer, fewer.len() as int, page_size);
            let a = total_pages(fewer, page_size);
            let b = pages_of(ranges.last(), page_size);
            assert((a + b) * page_size == a * page_size + b * page_size) by (nonlinear_arith);
        } else {
            assert(fewer.take(n) =~= ranges.take(n));
            lemma_totals_of_prefix(fewer, n, page_size);
        }
    }
}

/// Bounds on the byte counts of a part of the ranges, from those of all of them.
proof fn lemma_products(part: int, all: int, set_before: int, found: int, page_size: int)
    by (nonlinear_arith)
    requires
        part <= all,
        all * page_size <= u64::MAX,
        0 <= set_before,
        0 <= found,
        set_before + found <= part,
        page_size > 0,
    ensures
        part <= part * page_size <= u64::MAX,
        (set_before + found) * page_size == set_before * page_size + found * page_size,
        set_before * page_size + found * page_size <= u64::MAX,
        0 <= set_before * page_size,
        0 <= found * page_size,
{
}

proof fn lemma_set_pages_bound(ranges: Seq<MemoryRange>, maps: Seq<Seq<bool>>, page_size: int)
    requires
        maps.len() == ranges.len(),
        page_size > 0,
        forall|i: int|
            0 <= i < ranges.len() ==> (#[trigger] maps[i]).len() <= pages_of(ranges[i], page_size),
    ensures
        0 <= set_pages(maps) <= total_pages(ranges, page_size),
    decreases ranges.len(),
{
    if ranges.len() > 0 {
        let fewer = maps.drop_last();
        assert forall|i: int| 0 <= i < ranges.drop_last().len() implies (#[trigger] fewer[i]).len()
            <= pages_of(ranges.drop_last()[i], page_size) by {
            assert(maps[i] == fewer[i]);
        }
        lemma_set_pages_bound(ranges.drop_last(), fewer, page_size);
        assert(maps[maps.len() - 1].len() <= pages_of(ranges[ranges.len() - 1], page_size));
        pagemap_anon::law_count_set_bound(maps.last());
    }
}

/// The bitmaps as sequences.
pub open spec fn bitmaps_view(bitmaps: Seq<Vec<bool>>) -> Seq<Seq<bool>> {
    bitmaps.map_values(|bits: Vec<bool>| bits@)
}

/// Whether no bitmap reaches beyond the pages of its range.
pub open spec fn bitmaps_fit(
    ranges: Seq<MemoryRange>,
    maps: Seq<Seq<bool>>,
    page_size: int,
) -> bool {
    &&& maps.len() == ranges.len()
    &&& forall|i: int|
        0 <= i < ranges.len() ==> (#[trigger] maps[i]).len() <= pages_of(ranges[i], page_size)
}

/// Merges the set pages of the ranges, whose bitmaps are known, into a delta with its statistics.
pub fn delta_from_bitmaps(
    ranges: &[MemoryRange],
    bitmaps: &Vec<Vec<bool>>,
    page_size: u64,
) -> (r: (Vec<MemoryRange>, SoftDirtyStats))
    requires
        ranges_fit(ranges@, page_size as int),
        bitmaps_fit(ranges@, bitmaps_view(bitmaps@), page_size as int),
    ensures
        filtered(r.0@, r.1, ranges@, bitmaps_view(bitmaps@), page_size as int),
{
    let mut out: Vec<MemoryRange> = Vec::new();
    let mut stats = SoftDirtyStats::default();
    let ghost ps = page_size as int;
    let ghost maps = bitmaps_view(bitmaps@);
    let mut at: usize = 0;
    proof {
        assert(ranges@.take(0) =~= Seq::empty());
        assert(pagemap_anon::ranges_view(out@) =~= Seq::empty());
        assert(0 * ps == 0) by (nonlinear_arith);
    }
    while at < ranges.len()
        invariant
            at <= ranges@.len(),
            ps == page_size,
            maps == bitmaps_view(bitmaps@),
            ranges_fit(ranges@, ps),
            bitmaps_fit(ranges@, maps, ps),
            filtered(out@, stats, ranges@.take(at as int), maps.take(at as int), ps),
        decreases ranges@.len() - at,
    {
        let range = ranges[at];
        let bits = &bitmaps[at];
        let ghost seen = ranges@.take(at as int);
        let ghost next = ranges@.take(at + 1);
        let ghost more = maps.take(at + 1);
        let ghost less = maps.take(at as int);
        proof {
            assert(next.drop_last() =~= seen);
            assert(next.last() == range);
            assert(maps[at as int] == bits@);
            assert(more.drop_last() =~= less);
            assert(more.last() == bits@);
            lemma_totals_of_prefix(ranges@, at + 1, ps);
            lemma_totals_of_prefix(next, at as int, ps);
            assert(next.take(at as int) =~= seen);
            assert forall|i: int| 0 <= i < next.len() implies (#[trigger] more[i]).len()
                <= pages_of(next[i], ps) by {
                assert(more[i] == maps[i]);
            }
            assert forall|i: int| 0 <= i < seen.len() implies (#[trigger] less[i]).len()
                <= pages_of(seen[i], ps) by {
                assert(less[i] == maps[i]);
            }
            lemma_set_pages_bound(next, more, ps);
            lemma_set_pages_bound(seen, less, ps);
            lemma_page_count_bounds(range.length as int, ps);
            let found = pagemap_anon::count_set(bits@) as int;
            assert(set_pages(more) == set_pages(less) + found);
            lemma_products(
                total_pages(next, ps),
                total_pages(ranges@, ps),
                set_pages(less),
                found,
                ps,
            );
            assert(bits@.len() * ps <= pages_of(range, ps) * ps) by (nonlinear_arith)
                requires
                    bits@.len() <= pages_of(range, ps),
                    ps > 0,
            ;
        }
        let mut pages: u64 = range.length / page_size;
        if range.length % page_size != 0 {
            pages = pages + 1;
        }
        stats.total_bytes = stats.total_bytes + range.length;
        stats.total_pages = stats.total_pages + pages;
        let (mut region_ranges, dirty_count) = coalesce_pages_to_ranges(
            range.gpa,
            bits.as_slice(),
            page_size,
        );
        stats.dirty_pages = stats.dirty_pages + dirty_count;
        stats.dirty_bytes = stats.dirty_bytes + dirty_count * page_size;
        let ghost before = out@;
        let ghost region = region_ranges@;
        out.append(&mut region_ranges);
        assert(pagemap_anon::ranges_view(out@)
            =~= pagemap_anon::ranges_view(before)
            + pagemap_anon::ranges_view(region));
        at = at + 1;
    }
    assert(ranges@.take(at as int) =~= ranges@);
    assert(maps.take(at as int) =~= maps);
    (out, stats)
}

/// Filters memory ranges to the pages whose soft-dirty bit is set.
///
/// Returns the coalesced guest-physical dirty ranges and statistics. `ranges` must describe guest
/// memory mapped in the current process; `read` reads a stretch of `/proc/self/pagemap`.
pub fn filter_memory_ranges_by_soft_dirty<
    R: Fn(PagemapRead) -> Result<Vec<u8>, PagemapReadFailure>,
>(
    guest_memory: &vm_memory::GuestMemoryMmap<()>,
    ranges: &[MemoryRange],
    page_size: u64,
    read: &R,
) -> (r: Result<(Vec<MemoryRange>, SoftDirtyStats), SoftDirtyError>)
    requires
        ranges_fit(ranges@, page_size as int),
        reads_any_stretch(*read),
    ensures
        r matches Ok(found) ==> soft_dirty_delta(
            crate::outside::host_addresses(*guest_memory),
            ranges@,
            page_size,
            *read,
            found.0@,
            found.1,
        ),
        r matches Err(e) ==> soft_dirty_delta_error(
            crate::outside::host_addresses(*guest_memory),
            ranges@,
            page_size,
            *read,
            e,
        ),
{
    let ghost host = crate::outside::host_addresses(*guest_memory);
    let mut bitmaps: Vec<Vec<bool>> = Vec::new();
    let mut at: usize = 0;
    while at < ranges.len()
        invariant
            at <= ranges@.len(),
            host == crate::outside::host_addresses(*guest_memory),
            ranges_fit(ranges@, page_size as int),
            reads_any_stretch(*read),
            all_dirty(host, ranges@.take(at as int), page_size, *read, bitmaps_view(bitmaps@)),
            bitmaps_fit(ranges@.take(at as int), bitmaps_view(bitmaps@), page_size as int),
        decreases ranges@.len() - at,
    {
        let range = ranges[at];
        let host_addr = match host_address(guest_memory, range.gpa) {
            Some(host_addr) => host_addr,
            None => {
                return Err(SoftDirtyError::GetHostAddressFailed);
            },
        };
        proof {
            lemma_host_page_addressable(host_addr, page_size);
            assert(pages::reads_exactly(
                *read,
                pages::pagemap_read_of(host_addr, range.length, page_size),
            ));
        }
        let bits = match get_soft_dirty_pages(host_addr, range.length, page_size, read) {
            Ok(bits) => bits,
            Err(e) => {
                return Err(e);
            },
        };
        let ghost before = bitmaps@;
        bitmaps.push(bits);
        assert(bitmaps_view(bitmaps@) =~= bitmaps_view(before).push(bits@));
        assert(ranges@.take(at + 1) =~= ranges@.take(at as int).push(range));
        at = at + 1;
    }
    assert(ranges@.take(at as int) =~= ranges@);
    Ok(delta_from_bitmaps(ranges, &bitmaps, page_size))
}

/// Marks the pages that are set in both bitmaps, as far as both reach.
pub fn intersect_pages(anon: &Vec<bool>, dirty: &Vec<bool>) -> (bits: Vec<bool>)
    ensures
        bits@ == both(anon@, dirty@),
{
    let mut bits: Vec<bool> = Vec::new();
    let mut page: usize = 0;
    while page < anon.len() && page < dirty.len()
        invariant
            page <= anon@.len(),
            page <= dirty@.len(),
            bits@.len() == page,
            forall|i: int| 0 <= i < page ==> bits@[i] == (anon@[i] && dirty@[i]),
        decreases anon@.len() - page,
    {
        bits.push(anon[page] && dirty[page]);
        page = page + 1;
    }
    assert(bits@ =~= both(anon@, dirty@));
    bits
}

/// Filters memory ranges by the intersection of pagemap-anon and soft-dirty.
///
/// The intersection is the minimal safe delta:
/// - soft-dirty alone is a window delta, but can be set by writes to file-backed mappings that were
///   never copied;
/// - pagemap-anon alone is cumulative since restore, so it reports every page written since then and
///   not just those of the current window;
/// - a page belongs to the current delta when it is private anonymous (its content diverges from the
///   base file) and was written in the current window. A swapped-out page is reported by both
///   ledgers and so is taken.
///
/// `anon_pages` reports the anonymous pages of a host memory region, one bool per host page; `read`
/// reads a stretch of `/proc/self/pagemap`.
pub fn filter_memory_ranges_by_anon_and_soft_dirty<
    R: Fn(PagemapRead) -> Result<Vec<u8>, PagemapReadFailure>,
    A: Fn(u64, u64) -> Result<Vec<bool>, PagemapAnonError>,
>(
    guest_memory: &vm_memory::GuestMemoryMmap<()>,
    ranges: &[MemoryRange],
    page_size: u64,
    anon_pages: &A,
    read: &R,
) -> (r: Result<(Vec<MemoryRange>, SoftDirtyStats), IntersectionError>)
    requires
        ranges_fit(ranges@, page_size as int),
        reads_any_stretch(*read),
        anon_answers(*anon_pages),
    ensures
        r matches Ok(found) ==> intersection_delta(
            crate::outside::host_addresses(*guest_memory),
            ranges@,
            page_size,
            *anon_pages,
            *read,
            found.0@,
            found.1,
        ),
        r matches Err(e) ==> intersection_delta_error(
            crate::outside::host_addresses(*guest_memory),
            ranges@,
            page_size,
            *anon_pages,
            *read,
            e,
        ),
{
    let ghost host = crate::outside::host_addresses(*guest_memory);
    let mut bitmaps: Vec<Vec<bool>> = Vec::new();
    let mut at: usize = 0;
    while at < ranges.len()
        invariant
            at <= ranges@.len(),
            host == crate::outside::host_addresses(*guest_memory),
            ranges_fit(ranges@, page_size as int),
            reads_any_stretch(*read),
            anon_answers(*anon_pages),
            all_both(
                host,
                ranges@.take(at as int),
                page_size,
                *anon_pages,
                *read,
                bitmaps_view(bitmaps@),
            ),
            bitmaps_fit(ranges@.take(at as int), bitmaps_view(bitmaps@), page_size as int),
        decreases ranges@.len() - at,
    {
        let range = ranges[at];
        let host_addr = match host_address(guest_memory, range.gpa) {
            Some(host_addr) => host_addr,
            None => {
                return Err(IntersectionError::Anon(PagemapAnonError::GetHostAddressFailed));
            },
        };
        let anon = match anon_pages(host_addr, range.length) {
            Ok(anon) => anon,
            Err(e) => {
                return Err(IntersectionError::Anon(e));
            },
        };
        proof {
            lemma_host_page_addressable(host_addr, page_size);
            assert(pages::reads_exactly(
                *read,
                pages::pagemap_read_of(host_addr, range.length, page_size),
            ));
        }
        let dirty = match get_soft_dirty_pages(host_addr, range.length, page_size, read) {
            Ok(dirty) => dirty,
            Err(e) => {
                return Err(IntersectionError::SoftDirty(e));
            },
        };
        let bits = intersect_pages(&anon, &dirty);
        assert(range_both(host, range, page_size, *anon_pages, *read, bits@));
        let ghost before = bitmaps@;
        bitmaps.push(bits);
        assert(bitmaps_view(bitmaps@) =~= bitmaps_view(before).push(bits@));
        assert(ranges@.take(at + 1) =~= ranges@.take(at as int).push(range));
        at = at + 1;
    }
    assert(ranges@.take(at as int) =~= ranges@);
    Ok(delta_from_bitmaps(ranges, &bitmaps, page_size))
}

/// Whether an address lies in a set page of a bitmap whose first page starts at `gpa`.
pub open spec fn in_set_page(gpa: int, bits: Seq<bool>, page_size: int, addr: int) -> bool {
    &&& 0 <= (addr - gpa) / page_size < bits.len()
    &&& bits[(addr - gpa) / page_size]
}

/// Whether an address lies in a set page of one of the ranges.
pub open spec fn in_some_set_page(
    ranges: Seq<MemoryRange>,
    maps: Seq<Seq<bool>>,
    page_size: int,
    addr: int,
) -> bool {
    exists|i: int|
        0 <= i < ranges.len() && in_set_page(
            (#[trigger] ranges[i]).gpa as int,
            maps[i],
            page_size,
            addr,
        )
}

proof fn lemma_covers_concat(a: Seq<(int, int)>, b: Seq<(int, int)>, addr: int)
    ensures
        pagemap_anon::covers(a + b, addr)
            <==> pagemap_anon::covers(a, addr)
            || pagemap_anon::covers(b, addr),
{
    let all = a + b;
    if pagemap_anon::covers(a, addr) {
        let k = choose|k: int| 0 <= k < a.len() && (#[trigger] a[k]).0 <= addr < a[k].0 + a[k].1;
        assert(all[k] == a[k]);
    }
    if pagemap_anon::covers(b, addr) {
        let k = choose|k: int| 0 <= k < b.len() && (#[trigger] b[k]).0 <= addr < b[k].0 + b[k].1;
        assert(all[a.len() + k] == b[k]);
    }
    if pagemap_anon::covers(all, addr) {
        let k = choose|k: int|
            0 <= k < all.len() && (#[trigger] all[k]).0 <= addr < all[k].0 + all[k].1;
        if k < a.len() {
            assert(all[k] == a[k]);
        } else {
            assert(all[k] == b[k - a.len()]);
        }
    }
}

/// The delta holds an address exactly when the page of some input range that the address lies in is
/// set: no written page is lost, and no other page is written out.
pub proof fn law_delta_holds_exactly_the_set_pages(
    ranges: Seq<MemoryRange>,
    maps: Seq<Seq<bool>>,
    page_size: int,
    addr: int,
)
    requires
        maps.len() == ranges.len(),
        page_size > 0,
    ensures
        pagemap_anon::covers(delta(ranges, maps, page_size), addr)
            <==> in_some_set_page(ranges, maps, page_size, addr),
    decreases ranges.len(),
{
    if ranges.len() > 0 {
        let fewer = ranges.drop_last();
        let less = maps.drop_last();
        let last = ranges.len() - 1;
        law_delta_holds_exactly_the_set_pages(fewer, less, page_size, addr);
        pagemap_anon::law_coalesced_holds_exactly_the_set_pages(
            ranges.last().gpa as int,
            maps.last(),
            page_size,
            addr,
        );
        lemma_covers_concat(
            delta(fewer, less, page_size),
            pagemap_anon::coalesced(
                ranges.last().gpa as int,
                maps.last(),
                page_size,
            ),
            addr,
        );
        if in_some_set_page(fewer, less, page_size, addr) {
            let i = choose|i: int|
                0 <= i < fewer.len() && in_set_page(
                    (#[trigger] fewer[i]).gpa as int,
                    less[i],
                    page_size,
                    addr,
                );
            assert(ranges[i] == fewer[i] && maps[i] == less[i]);
        }
        if in_set_page(ranges.last().gpa as int, maps.last(), page_size, addr) {
            assert(ranges[last] == ranges.last());
        }
        if in_some_set_page(ranges, maps, page_size, addr) {
            let i = choose|i: int|
                0 <= i < ranges.len() && in_set_page(
                    (#[trigger] ranges[i]).gpa as int,
                    maps[i],
                    page_size,
                    addr,
                );
            if i < last {
                assert(ranges[i] == fewer[i] && maps[i] == less[i]);
            }
        }
    }
}

proof fn lemma_total_length_concat(a: Seq<(int, int)>, b: Seq<(int, int)>)
    ensures
        pagemap_anon::total_length(a + b)
            == pagemap_anon::total_length(a)
            + pagemap_anon::total_length(b),
    decreases b.len(),
{
    if b.len() == 0 {
        assert(a + b =~= a);
    } else {
        assert((a + b).drop_last() =~= a + b.drop_last());
        lemma_total_length_concat(a, b.drop_last());
    }
}

/// The delta holds one page of bytes for each set page: its length is the count of dirty bytes.
pub proof fn law_delta_length(ranges: Seq<MemoryRange>, maps: Seq<Seq<bool>>, page_size: int)
    requires
        maps.len() == ranges.len(),
        page_size > 0,
    ensures
        pagemap_anon::total_length(delta(ranges, maps, page_size)) == set_pages(maps)
            * page_size,
    decreases ranges.len(),
{
    if ranges.len() > 0 {
        let fewer = ranges.drop_last();
        let less = maps.drop_last();
        law_delta_length(fewer, less, page_size);
        pagemap_anon::law_coalesced_length(
            ranges.last().gpa as int,
            maps.last(),
            page_size,
        );
        lemma_total_length_concat(
            delta(fewer, less, page_size),
            pagemap_anon::coalesced(
                ranges.last().gpa as int,
                maps.last(),
                page_size,
            ),
        );
        let found = pagemap_anon::count_set(maps.last()) as int;
        assert((set_pages(less) + found) * page_size == set_pages(less) * page_size + found
            * page_size) by (nonlinear_arith);
    } else {
        assert(0 * page_size == 0) by (nonlinear_arith);
    }
}

/// No more pages are dirty than were examined. When each range is a whole number of pages, no more
/// bytes are dirty than the ranges hold.
pub proof fn law_dirty_is_part_of_total(
    ranges: Seq<MemoryRange>,
    maps: Seq<Seq<bool>>,
    page_size: int,
)
    requires
        bitmaps_fit(ranges, maps, page_size),
        page_size > 0,
    ensures
        0 <= set_pages(maps) <= total_pages(ranges, page_size),
        (forall|i: int| 0 <= i < ranges.len() ==> (#[trigger] ranges[i]).length as int % page_size == 0)
            ==> set_pages(maps) * page_size <= total_bytes(ranges),
{
    lemma_set_pages_bound(ranges, maps, page_size);
    if forall|i: int| 0 <= i < ranges.len() ==> (#[trigger] ranges[i]).length as int % page_size == 0 {
        lemma_whole_pages(ranges, page_size);
        assert(set_pages(maps) * page_size <= total_pages(ranges, page_size) * page_size)
            by (nonlinear_arith)
            requires
                set_pages(maps) <= total_pages(ranges, page_size),
                page_size > 0,
        ;
    }
}

proof fn lemma_whole_pages(ranges: Seq<MemoryRange>, page_size: int)
    requires
        page_size > 0,
        forall|i: int| 0 <= i < ranges.len() ==> (#[trigger] ranges[i]).length as int % page_size == 0,
    ensures
        total_bytes(ranges) == total_pages(ranges, page_size) * page_size,
    decreases ranges.len(),
{
    if ranges.len() > 0 {
        let fewer = ranges.drop_last();
        assert forall|i: int| 0 <= i < fewer.len() implies (#[trigger] fewer[i]).length as int
            % page_size == 0 by {
            assert(fewer[i] == ranges[i]);
        }
        lemma_whole_pages(fewer, page_size);
        assert(ranges[ranges.len() - 1].length as int % page_size == 0);
        lemma_page_count_bounds(ranges.last().length as int, page_size);
        let a = total_pages(fewer, page_size);
        let b = pages_of(ranges.last(), page_size);
        assert((a + b) * page_size == a * page_size + b * page_size) by (nonlinear_arith);
    } else {
        assert(0 * page_size == 0) by (nonlinear_arith);
    }
}

/// The delta of the intersection holds exactly the addresses that the deltas of both ledgers hold.
pub proof fn law_intersection_is_both_deltas(
    gpa: int,
    anon: Seq<bool>,
    dirty: Seq<bool>,
    page_size: int,
    addr: int,
)
    requires
        page_size > 0,
    ensures
        pagemap_anon::covers(
            pagemap_anon::coalesced(gpa, both(anon, dirty), page_size),
            addr,
        ) <==> {
            &&& pagemap_anon::covers(
                pagemap_anon::coalesced(gpa, anon, page_size),
                addr,
            )
            &&& pagemap_anon::covers(
                pagemap_anon::coalesced(gpa, dirty, page_size),
                addr,
            )
        },
{
    pagemap_anon::law_coalesced_holds_exactly_the_set_pages(
        gpa,
        both(anon, dirty),
        page_size,
        addr,
    );
    pagemap_anon::law_coalesced_holds_exactly_the_set_pages(
        gpa,
        anon,
        page_size,
        addr,
    );
    pagemap_anon::law_coalesced_holds_exactly_the_set_pages(
        gpa,
        dirty,
        page_size,
        addr,
    );
}

/// What the pagemap reports for a region makes up its delta: an address is in it exactly when the
/// entry of its page has the soft-dirty bit set, or says that the page is swapped out. So a page
/// whose bit cannot be observed is written out, not dropped.
pub proof fn law_written_and_swapped_pages_are_in_the_delta(
    gpa: int,
    buf: Seq<u8>,
    pages: nat,
    page_size: int,
    addr: int,
)
    requires
        page_size > 0,
    ensures
        pagemap_anon::covers(
            pagemap_anon::coalesced(
                gpa,
                pages::dirty_bits(buf, pages),
                page_size,
            ),
            addr,
        ) <==> {
            let page = (addr - gpa) / page_size;
            &&& 0 <= page < pages
            &&& pages::bit_set(pages::pagemap_entry(buf, page), 55)
                || pages::bit_set(pages::pagemap_entry(buf, page), 62)
        },
{
    pagemap_anon::law_coalesced_holds_exactly_the_set_pages(
        gpa,
        pages::dirty_bits(buf, pages),
        page_size,
        addr,
    );
}

/// A window in which nothing was written gives an empty delta.
pub proof fn law_empty_window_gives_empty_delta(
    ranges: Seq<MemoryRange>,
    maps: Seq<Seq<bool>>,
    page_size: int,
)
    requires
        maps.len() == ranges.len(),
        forall|i: int, page: int|
            0 <= i < maps.len() && 0 <= page < maps[i].len() ==> !#[trigger] maps[i][page],
    ensures
        delta(ranges, maps, page_size) == Seq::<(int, int)>::empty(),
        set_pages(maps) == 0,
    decreases ranges.len(),
{
    if ranges.len() > 0 {
        let less = maps.drop_last();
        assert forall|i: int, page: int| 0 <= i < less.len() && 0 <= page < less[i].len() implies !(
        #[trigger] less[i][page]) by {
            assert(maps[i] == less[i]);
            assert(!maps[i][page]);
        }
        law_empty_window_gives_empty_delta(ranges.drop_last(), less, page_size);
        let last = maps.len() - 1;
        assert forall|page: int| 0 <= page < maps.last().len() implies !maps.last()[page] by {
            assert(!maps[last][page]);
        }
        pagemap_anon::law_nothing_set_gives_no_ranges(
            ranges.last().gpa as int,
            maps.last(),
            page_size,
        );
        assert(delta(ranges, maps, page_size) =~= Seq::<(int, int)>::empty());
    }
}

/// Whether an address lies in a page of some range that its bitmap sets.
pub open spec fn set_in_some_range(
    ranges: Seq<MemoryRange>,
    maps: Seq<Seq<bool>>,
    page_size: int,
    addr: int,
) -> bool {
    exists|i: int|
        0 <= i < ranges.len() && pagemap_anon::in_a_set_page(
            (#[trigger] ranges[i]).gpa as int,
            maps[i],
            page_size,
            addr,
        )
}

/// The ranges that a filter hands out hold an address exactly when it lies in a page of some input
/// range that is set. Their bytes are counted, a whole page for each set page, and so are the set pages.
pub proof fn law_filter_hands_out_just_the_set_pages(
    out: Seq<MemoryRange>,
    stats: SoftDirtyStats,
    ranges: Seq<MemoryRange>,
    maps: Seq<Seq<bool>>,
    page_size: int,
)
    requires
        page_size > 0,
        filtered(out, stats, ranges, maps, page_size),
    ensures
        forall|addr: int| #[trigger]
            pagemap_anon::holds_address(out, addr) <==> set_in_some_range(
                ranges,
                maps,
                page_size,
                addr,
            ),
        stats.dirty_bytes == stats.dirty_pages * page_size,
        stats.dirty_bytes == pagemap_anon::total_length(pagemap_anon::ranges_view(out)),
{
    law_delta_length(ranges, maps, page_size);
    let found = pagemap_anon::ranges_view(out);
    assert forall|addr: int| #[trigger]
        pagemap_anon::holds_address(out, addr) <==> set_in_some_range(
            ranges,
            maps,
            page_size,
            addr,
        ) by {
        law_delta_holds_exactly_the_set_pages(ranges, maps, page_size, addr);
        if pagemap_anon::holds_address(out, addr) {
            let k = choose|k: int|
                0 <= k < out.len() && (#[trigger] out[k]).gpa <= addr < out[k].gpa + out[k].length;
            assert(found[k] == out[k]@);
            let i = choose|i: int|
                0 <= i < ranges.len() && in_set_page(
                    (#[trigger] ranges[i]).gpa as int,
                    maps[i],
                    page_size,
                    addr,
                );
            let page = (addr - ranges[i].gpa) / page_size;
            pagemap_anon::law_address_lies_in_one_page(ranges[i].gpa as int, page, page_size, addr);
            assert(maps[i][page]);
            assert(pagemap_anon::in_a_set_page(ranges[i].gpa as int, maps[i], page_size, addr));
        }
        if set_in_some_range(ranges, maps, page_size, addr) {
            let i = choose|i: int|
                0 <= i < ranges.len() && pagemap_anon::in_a_set_page(
                    (#[trigger] ranges[i]).gpa as int,
                    maps[i],
                    page_size,
                    addr,
                );
            let page = choose|page: int|
                0 <= page < maps[i].len() && #[trigger] maps[i][page] && pagemap_anon::in_page(
                    ranges[i].gpa as int,
                    page,
                    page_size,
                    addr,
                );
            pagemap_anon::law_address_lies_in_one_page(ranges[i].gpa as int, page, page_size, addr);
            assert(in_set_page(ranges[i].gpa as int, maps[i], page_size, addr));
            assert(pagemap_anon::covers(found, addr));
            let k = choose|k: int|
                0 <= k < found.len() && (#[trigger] found[k]).0 <= addr < found[k].0 + found[k].1;
            assert(out[k].gpa <= addr < out[k].gpa + out[k].length);
        }
    }
}

/// Ranges are filtered one after the other: what is handed out and counted for two lists of them is
/// what is for the first and then for the second. A single range counts its own bytes, the pages that it
/// takes and the pages that its bitmap sets.
pub proof fn law_ranges_are_filtered_one_by_one(
    a: Seq<MemoryRange>,
    b: Seq<MemoryRange>,
    in_a: Seq<Seq<bool>>,
    in_b: Seq<Seq<bool>>,
    page_size: int,
)
    requires
        in_a.len() == a.len(),
        in_b.len() == b.len(),
        page_size > 0,
    ensures
        delta(a + b, in_a + in_b, page_size) == delta(a, in_a, page_size) + delta(
            b,
            in_b,
            page_size,
        ),
        total_bytes(a + b) == total_bytes(a) + total_bytes(b),
        total_pages(a + b, page_size) == total_pages(a, page_size) + total_pages(b, page_size),
        set_pages(in_a + in_b) == set_pages(in_a) + set_pages(in_b),
        b.len() == 1 ==> {
            &&& total_bytes(b) == b[0].length
            &&& b[0].length <= total_pages(b, page_size) * page_size < b[0].length + page_size
            &&& set_pages(in_b) == Set::new(
                |page: int| 0 <= page < in_b[0].len() && in_b[0][page],
            ).len()
        },
    decreases b.len(),
{
    if b.len() == 0 {
        assert(a + b =~= a);
        assert(in_a + in_b =~= in_a);
        assert(delta(a, in_a, page_size) + delta(b, in_b, page_size) =~= delta(a, in_a, page_size));
    } else {
        assert((a + b).drop_last() =~= a + b.drop_last());
        assert((in_a + in_b).drop_last() =~= in_a + in_b.drop_last());
        law_ranges_are_filtered_one_by_one(a, b.drop_last(), in_a, in_b.drop_last(), page_size);
        let last = pagemap_anon::coalesced(b.last().gpa as int, in_b.last(), page_size);
        assert((delta(a, in_a, page_size) + delta(b.drop_last(), in_b.drop_last(), page_size)) + last
            =~= delta(a, in_a, page_size) + (delta(b.drop_last(), in_b.drop_last(), page_size)
            + last));
        if b.len() == 1 {
            assert(b.drop_last().len() == 0 && in_b.drop_last().len() == 0);
            pages::law_page_count_is_the_least(b[0].length as int, page_size);
            pagemap_anon::law_count_set_counts_the_set_pages(in_b[0]);
        }
    }
}

/// Whether the entry of a page in a stretch of the pagemap has its bit 55 or its bit 62 set.
pub open spec fn page_written(buf: Seq<u8>, page: int) -> bool {
    let entry = crate::outside::native_value(buf.subrange(8 * page, 8 * page + 8)) as int;
    ||| entry / 0x0080_0000_0000_0000 % 2 == 1
    ||| entry / 0x4000_0000_0000_0000 % 2 == 1
}

/// Whether bytes were read from the pagemap for a range of guest memory: eight for each of its pages,
/// from where the entry of the page lies that the range is mapped at.
pub open spec fn read_for<R: Fn(PagemapRead) -> Result<Vec<u8>, PagemapReadFailure>>(
    host: Map<u64, u64>,
    range: MemoryRange,
    page_size: u64,
    read: R,
    buf: Vec<u8>,
) -> bool {
    &&& host.contains_key(range.gpa)
    &&& host[range.gpa] as int % page_size as int == 0
    &&& buf@.len() % 8 == 0
    &&& range.length <= buf@.len() as int / 8 * page_size < range.length + page_size
    &&& exists|stretch: PagemapRead|
        {
            &&& #[trigger] call_ensures(read, (stretch,), Ok::<Vec<u8>, PagemapReadFailure>(buf))
            &&& stretch.offset * page_size == host[range.gpa] * 8
            &&& stretch.len == buf@.len()
        }
}

/// Whether bytes may have been read from the pagemap for a range of guest memory.
pub open spec fn was_read<R: Fn(PagemapRead) -> Result<Vec<u8>, PagemapReadFailure>>(
    host: Map<u64, u64>,
    range: MemoryRange,
    page_size: u64,
    read: R,
) -> bool {
    exists|buf: Vec<u8>| #[trigger] read_for(host, range, page_size, read, buf)
}

/// Whether bytes of the pagemap say of each page what a bitmap does.
pub open spec fn tells(buf: Seq<u8>, bits: Seq<bool>) -> bool {
    &&& buf.len() == 8 * bits.len()
    &&& forall|page: int|
        0 <= page < bits.len() ==> (#[trigger] bits[page] <==> page_written(buf, page))
}

proof fn lemma_bitmap_was_read<R: Fn(PagemapRead) -> Result<Vec<u8>, PagemapReadFailure>>(
    host: Map<u64, u64>,
    range: MemoryRange,
    page_size: u64,
    read: R,
    bits: Seq<bool>,
) -> (buf: Vec<u8>)
    requires
        page_size >= 8,
        pages_of(range, page_size as int) * 8 <= usize::MAX,
        reads_any_stretch(read),
        range_dirty(host, range, page_size, read, bits),
    ensures
        read_for(host, range, page_size, read, buf),
        tells(buf@, bits),
{
    let host_addr = host[range.gpa];
    lemma_host_page_addressable(host_addr, page_size);
    assert(pages::reads_exactly(
        read,
        pages::pagemap_read_of(host_addr, range.length, page_size),
    ));
    pages::law_report_comes_from_the_pagemap(host_addr, range.length, page_size, read, bits);
    let (stretch, buf) = choose|stretch: PagemapRead, buf: Vec<u8>|
        {
            &&& #[trigger] call_ensures(read, (stretch,), Ok::<Vec<u8>, PagemapReadFailure>(buf))
            &&& stretch.offset * page_size == host_addr * 8
            &&& stretch.len == 8 * bits.len()
            &&& buf@.len() == 8 * bits.len()
            &&& forall|i: int|
                0 <= i < bits.len() ==> (#[trigger] bits[i] <==> {
                    let entry = crate::outside::native_value(buf@.subrange(8 * i, 8 * i + 8));
                    ||| entry as int / 0x0080_0000_0000_0000 % 2 == 1
                    ||| entry as int / 0x4000_0000_0000_0000 % 2 == 1
                })
        };
    assert(call_ensures(read, (stretch,), Ok::<Vec<u8>, PagemapReadFailure>(buf)));
    buf
}

/// Whether an address lies in a page of some range whose pagemap entry says that it was written.
pub open spec fn written_in_some_range(
    ranges: Seq<MemoryRange>,
    bufs: Seq<Vec<u8>>,
    page_size: int,
    addr: int,
) -> bool {
    exists|i: int, page: int|
        {
            &&& 0 <= i < ranges.len()
            &&& 0 <= page < bufs[i]@.len() as int / 8
            &&& #[trigger] page_written(bufs[i]@, page)
            &&& pagemap_anon::in_page(ranges[i].gpa as int, page, page_size, addr)
        }
}

/// Whether ranges hold just what the bytes that were read from the pagemap say was written.
pub open spec fn delta_of_pagemap<R: Fn(PagemapRead) -> Result<Vec<u8>, PagemapReadFailure>>(
    host: Map<u64, u64>,
    ranges: Seq<MemoryRange>,
    page_size: u64,
    read: R,
    out: Seq<MemoryRange>,
    bufs: Seq<Vec<u8>>,
) -> bool {
    &&& bufs.len() == ranges.len()
    &&& forall|i: int|
        0 <= i < ranges.len() ==> read_for(host, ranges[i], page_size, read, #[trigger] bufs[i])
    &&& forall|addr: int| #[trigger]
        pagemap_anon::holds_address(out, addr) <==> written_in_some_range(
            ranges,
            bufs,
            page_size as int,
            addr,
        )
}

/// A filter by the soft-dirty bits hands out just the memory whose pages were written, as the pagemap
/// says: for each range the entries of its pages were read, and an address is handed out exactly when
/// the entry of its own page has bit 55 or bit 62 set.
pub proof fn law_delta_is_what_the_pagemap_says<
    R: Fn(PagemapRead) -> Result<Vec<u8>, PagemapReadFailure>,
>(
    host: Map<u64, u64>,
    ranges: Seq<MemoryRange>,
    page_size: u64,
    read: R,
    out: Seq<MemoryRange>,
    stats: SoftDirtyStats,
)
    requires
        ranges_fit(ranges, page_size as int),
        reads_any_stretch(read),
        soft_dirty_delta(host, ranges, page_size, read, out, stats),
    ensures
        exists|bufs: Seq<Vec<u8>>| #[trigger]
            delta_of_pagemap(host, ranges, page_size, read, out, bufs),
        stats.dirty_bytes == stats.dirty_pages * page_size,
        stats.dirty_bytes == pagemap_anon::total_length(pagemap_anon::ranges_view(out)),
        stats.total_bytes == total_bytes(ranges),
        stats.total_pages == total_pages(ranges, page_size as int),
{
    let ps = page_size as int;
    let maps = choose|maps: Seq<Seq<bool>>|
        {
            &&& all_dirty(host, ranges, page_size, read, maps)
            &&& #[trigger] filtered(out, stats, ranges, maps, ps)
        };
    law_filter_hands_out_just_the_set_pages(out, stats, ranges, maps, ps);
    let bufs = Seq::new(
        ranges.len(),
        |i: int|
            choose|buf: Vec<u8>|
                #![trigger tells(buf@, maps[i])]
                read_for(host, ranges[i], page_size, read, buf) && tells(buf@, maps[i]),
    );
    assert forall|i: int| 0 <= i < ranges.len() implies read_for(
        host,
        ranges[i],
        page_size,
        read,
        #[trigger] bufs[i],
    ) && tells(bufs[i]@, maps[i]) by {
        assert(range_dirty(host, ranges[i], page_size, read, maps[i]));
        let buf = lemma_bitmap_was_read(host, ranges[i], page_size, read, maps[i]);
        assert(tells(buf@, maps[i]));
    }
    assert forall|addr: int| #[trigger]
        pagemap_anon::holds_address(out, addr) <==> written_in_some_range(
            ranges,
            bufs,
            ps,
            addr,
        ) by {
        if set_in_some_range(ranges, maps, ps, addr) {
            let i = choose|i: int|
                0 <= i < ranges.len() && pagemap_anon::in_a_set_page(
                    (#[trigger] ranges[i]).gpa as int,
                    maps[i],
                    ps,
                    addr,
                );
            let page = choose|page: int|
                0 <= page < maps[i].len() && #[trigger] maps[i][page] && pagemap_anon::in_page(
                    ranges[i].gpa as int,
                    page,
                    ps,
                    addr,
                );
            assert(tells(bufs[i]@, maps[i]));
            assert(page_written(bufs[i]@, page));
        }
        if written_in_some_range(ranges, bufs, ps, addr) {
            let (i, page) = choose|i: int, page: int|
                {
                    &&& 0 <= i < ranges.len()
                    &&& 0 <= page < bufs[i]@.len() as int / 8
                    &&& #[trigger] page_written(bufs[i]@, page)
                    &&& pagemap_anon::in_page(ranges[i].gpa as int, page, ps, addr)
                };
            assert(tells(bufs[i]@, maps[i]));
            assert(maps[i][page]);
            assert(pagemap_anon::in_a_set_page(ranges[i].gpa as int, maps[i], ps, addr));
        }
    }
    assert(delta_of_pagemap(host, ranges, page_size, read, out, bufs));
}

/// The intersection of two bitmaps reaches as far as both, and sets a page exactly when both do.
pub proof fn law_intersection_sets_what_both_set(anon: Seq<bool>, dirty: Seq<bool>)
    ensures
        both(anon, dirty).len() <= anon.len(),
        both(anon, dirty).len() <= dirty.len(),
        both(anon, dirty).len() == anon.len() || both(anon, dirty).len() == dirty.len(),
        forall|page: int|
            0 <= page < anon.len() && page < dirty.len() ==> (#[trigger] both(anon, dirty)[page] <==> {
                &&& anon[page]
                &&& dirty[page]
            }),
{
}

/// Whether an address lies in a page of some range that is anonymous and whose pagemap entry says that
/// it was written.
pub open spec fn written_and_anon_in_some_range(
    ranges: Seq<MemoryRange>,
    anons: Seq<Vec<bool>>,
    bufs: Seq<Vec<u8>>,
    page_size: int,
    addr: int,
) -> bool {
    exists|i: int, page: int|
        {
            &&& 0 <= i < ranges.len()
            &&& 0 <= page < bufs[i]@.len() as int / 8
            &&& page < anons[i]@.len()
            &&& anons[i]@[page]
            &&& #[trigger] page_written(bufs[i]@, page)
            &&& pagemap_anon::in_page(ranges[i].gpa as int, page, page_size, addr)
        }
}

/// Whether ranges hold just what was written, as the bytes that were read from the pagemap say, and is
/// anonymous, as the other ledger says.
pub open spec fn delta_of_both<
    R: Fn(PagemapRead) -> Result<Vec<u8>, PagemapReadFailure>,
    A: Fn(u64, u64) -> Result<Vec<bool>, PagemapAnonError>,
>(
    host: Map<u64, u64>,
    ranges: Seq<MemoryRange>,
    page_size: u64,
    anon_pages: A,
    read: R,
    out: Seq<MemoryRange>,
    anons: Seq<Vec<bool>>,
    bufs: Seq<Vec<u8>>,
) -> bool {
    &&& bufs.len() == ranges.len()
    &&& anons.len() == ranges.len()
    &&& forall|i: int|
        0 <= i < ranges.len() ==> read_for(host, ranges[i], page_size, read, #[trigger] bufs[i])
    &&& forall|i: int|
        0 <= i < ranges.len() ==> call_ensures(
            anon_pages,
            (host[ranges[i].gpa], ranges[i].length),
            Ok::<Vec<bool>, PagemapAnonError>(#[trigger] anons[i]),
        )
    &&& forall|addr: int| #[trigger]
        pagemap_anon::holds_address(out, addr) <==> written_and_anon_in_some_range(
            ranges,
            anons,
            bufs,
            page_size as int,
            addr,
        )
}

spec fn tells_with_anon<
    R: Fn(PagemapRead) -> Result<Vec<u8>, PagemapReadFailure>,
    A: Fn(u64, u64) -> Result<Vec<bool>, PagemapAnonError>,
>(
    host: Map<u64, u64>,
    range: MemoryRange,
    page_size: u64,
    anon_pages: A,
    read: R,
    found: (Vec<bool>, Vec<u8>),
    bits: Seq<bool>,
) -> bool {
    &&& read_for(host, range, page_size, read, found.1)
    &&& call_ensures(
        anon_pages,
        (host[range.gpa], range.length),
        Ok::<Vec<bool>, PagemapAnonError>(found.0),
    )
    &&& bits.len() <= found.0@.len()
    &&& 8 * bits.len() <= found.1@.len()
    &&& bits.len() == found.0@.len() || 8 * bits.len() == found.1@.len()
    &&& forall|page: int|
        0 <= page < bits.len() ==> (#[trigger] bits[page] <==> found.0@[page] && page_written(
            found.1@,
            page,
        ))
}

proof fn lemma_both_bitmaps_were_read<
    R: Fn(PagemapRead) -> Result<Vec<u8>, PagemapReadFailure>,
    A: Fn(u64, u64) -> Result<Vec<bool>, PagemapAnonError>,
>(
    host: Map<u64, u64>,
    range: MemoryRange,
    page_size: u64,
    anon_pages: A,
    read: R,
    bits: Seq<bool>,
) -> (found: (Vec<bool>, Vec<u8>))
    requires
        page_size >= 8,
        pages_of(range, page_size as int) * 8 <= usize::MAX,
        reads_any_stretch(read),
        range_both(host, range, page_size, anon_pages, read, bits),
    ensures
        tells_with_anon(host, range, page_size, anon_pages, read, found, bits),
{
    let (anon, dirty) = choose|anon: Vec<bool>, dirty: Seq<bool>|
        {
            &&& call_ensures(
                anon_pages,
                (host[range.gpa], range.length),
                Ok::<Vec<bool>, PagemapAnonError>(anon),
            )
            &&& range_dirty(host, range, page_size, read, dirty)
            &&& bits == #[trigger] both(anon@, dirty)
        };
    let buf = lemma_bitmap_was_read(host, range, page_size, read, dirty);
    law_intersection_sets_what_both_set(anon@, dirty);
    assert forall|page: int| 0 <= page < bits.len() implies (#[trigger] bits[page] <==> anon@[page]
        && page_written(buf@, page)) by {
        assert(both(anon@, dirty)[page] == bits[page]);
        assert(dirty[page] <==> page_written(buf@, page));
    }
    (anon, buf)
}

/// A filter by both ledgers hands out just the memory whose pages are anonymous and were written: an
/// address is handed out exactly when the anon ledger sets its page and the pagemap entry of that page
/// has bit 55 or bit 62 set.
pub proof fn law_intersection_is_what_both_ledgers_say<
    R: Fn(PagemapRead) -> Result<Vec<u8>, PagemapReadFailure>,
    A: Fn(u64, u64) -> Result<Vec<bool>, PagemapAnonError>,
>(
    host: Map<u64, u64>,
    ranges: Seq<MemoryRange>,
    page_size: u64,
    anon_pages: A,
    read: R,
    out: Seq<MemoryRange>,
    stats: SoftDirtyStats,
)
    requires
        ranges_fit(ranges, page_size as int),
        reads_any_stretch(read),
        intersection_delta(host, ranges, page_size, anon_pages, read, out, stats),
    ensures
        exists|anons: Seq<Vec<bool>>, bufs: Seq<Vec<u8>>| #[trigger]
            delta_of_both(host, ranges, page_size, anon_pages, read, out, anons, bufs),
        stats.dirty_bytes == stats.dirty_pages * page_size,
        stats.dirty_bytes == pagemap_anon::total_length(pagemap_anon::ranges_view(out)),
        stats.total_bytes == total_bytes(ranges),
        stats.total_pages == total_pages(ranges, page_size as int),
{
    let ps = page_size as int;
    let maps = choose|maps: Seq<Seq<bool>>|
        {
            &&& all_both(host, ranges, page_size, anon_pages, read, maps)
            &&& #[trigger] filtered(out, stats, ranges, maps, ps)
        };
    law_filter_hands_out_just_the_set_pages(out, stats, ranges, maps, ps);
    let found = Seq::new(
        ranges.len(),
        |i: int|
            choose|found: (Vec<bool>, Vec<u8>)| #[trigger]
                tells_with_anon(host, ranges[i], page_size, anon_pages, read, found, maps[i]),
    );
    assert forall|i: int| 0 <= i < ranges.len() implies tells_with_anon(
        host,
        ranges[i],
        page_size,
        anon_pages,
        read,
        #[trigger] found[i],
        maps[i],
    ) by {
        assert(range_both(host, ranges[i], page_size, anon_pages, read, maps[i]));
        let one = lemma_both_bitmaps_were_read(
            host,
            ranges[i],
            page_size,
            anon_pages,
            read,
            maps[i],
        );
        assert(tells_with_anon(host, ranges[i], page_size, anon_pages, read, one, maps[i]));
    }
    let anons = Seq::new(ranges.len(), |i: int| found[i].0);
    let bufs = Seq::new(ranges.len(), |i: int| found[i].1);
    assert forall|addr: int| #[trigger]
        pagemap_anon::holds_address(out, addr) <==> written_and_anon_in_some_range(
            ranges,
            anons,
            bufs,
            ps,
            addr,
        ) by {
        if set_in_some_range(ranges, maps, ps, addr) {
            let i = choose|i: int|
                0 <= i < ranges.len() && pagemap_anon::in_a_set_page(
                    (#[trigger] ranges[i]).gpa as int,
                    maps[i],
                    ps,
                    addr,
                );
            let page = choose|page: int|
                0 <= page < maps[i].len() && #[trigger] maps[i][page] && pagemap_anon::in_page(
                    ranges[i].gpa as int,
                    page,
                    ps,
                    addr,
                );
            assert(bufs[i] == found[i].1 && anons[i] == found[i].0);
            assert(page_written(bufs[i]@, page));
        }
        if written_and_anon_in_some_range(ranges, anons, bufs, ps, addr) {
            let (i, page) = choose|i: int, page: int|
                {
                    &&& 0 <= i < ranges.len()
                    &&& 0 <= page < bufs[i]@.len() as int / 8
                    &&& page < anons[i]@.len()
                    &&& anons[i]@[page]
                    &&& #[trigger] page_written(bufs[i]@, page)
                    &&& pagemap_anon::in_page(ranges[i].gpa as int, page, ps, addr)
                };
            assert(bufs[i] == found[i].1 && anons[i] == found[i].0);
            assert(maps[i][page]);
            assert(pagemap_anon::in_a_set_page(ranges[i].gpa as int, maps[i], ps, addr));
        }
    }
    assert forall|i: int| 0 <= i < ranges.len() implies read_for(
        host,
        ranges[i],
        page_size,
        read,
        #[trigger] bufs[i],
    ) by {
        assert(bufs[i] == found[i].1);
    }
    assert forall|i: int| 0 <= i < ranges.len() implies call_ensures(
        anon_pages,
        (host[ranges[i].gpa], ranges[i].length),
        Ok::<Vec<bool>, PagemapAnonError>(#[trigger] anons[i]),
    ) by {
        assert(anons[i] == found[i].0);
    }
    assert(delta_of_both(host, ranges, page_size, anon_pages, read, out, anons, bufs));
}

/// A filter by the soft-dirty bits fails on the first range that it cannot look up: because the range
/// lies in no region of guest memory, or because the pagemap could not be read for where it is mapped.
pub proof fn law_filter_fails_on_the_first_bad_range<
    R: Fn(PagemapRead) -> Result<Vec<u8>, PagemapReadFailure>,
>(
    host: Map<u64, u64>,
    ranges: Seq<MemoryRange>,
    page_size: u64,
    read: R,
    error: SoftDirtyError,
)
    requires
        ranges_fit(ranges, page_size as int),
        reads_any_stretch(read),
        soft_dirty_delta_error(host, ranges, page_size, read, error),
    ensures
        exists|failed: int|
            {
                &&& 0 <= failed < ranges.len()
                &&& !host.contains_key((#[trigger] ranges[failed]).gpa) <==> error
                    is GetHostAddressFailed
                &&& host.contains_key(ranges[failed].gpa) ==> pages::reports_error(
                    host[ranges[failed].gpa],
                    ranges[failed].length,
                    page_size,
                    read,
                    error,
                )
                &&& forall|i: int|
                    0 <= i < failed ==> was_read(host, #[trigger] ranges[i], page_size, read)
            },
{
    let (failed, maps) = choose|failed: int, maps: Seq<Seq<bool>>|
        {
            &&& 0 <= failed < ranges.len()
            &&& #[trigger] all_dirty(host, ranges.take(failed), page_size, read, maps)
            &&& range_error(host, ranges[failed], page_size, read, error)
        };
    let before = ranges.take(failed);
    assert forall|i: int| 0 <= i < failed implies was_read(
        host,
        #[trigger] ranges[i],
        page_size,
        read,
    ) by {
        assert(before[i] == ranges[i]);
        assert(range_dirty(host, before[i], page_size, read, maps[i]));
        let buf = lemma_bitmap_was_read(host, ranges[i], page_size, read, maps[i]);
        assert(read_for(host, ranges[i], page_size, read, buf));
    }
    if host.contains_key(ranges[failed].gpa) {
        lemma_host_page_addressable(host[ranges[failed].gpa], page_size);
        pages::law_lookup_error_says_what_failed(
            host[ranges[failed].gpa],
            ranges[failed].length,
            page_size,
            read,
            error,
        );
    }
}

/// A filter by both ledgers fails on the first range that it cannot look up, and says in which ledger:
/// in the anon ledger, which is asked first, also when the range lies in no region of guest memory.
pub proof fn law_intersection_fails_on_the_first_bad_range<
    R: Fn(PagemapRead) -> Result<Vec<u8>, PagemapReadFailure>,
    A: Fn(u64, u64) -> Result<Vec<bool>, PagemapAnonError>,
>(
    host: Map<u64, u64>,
    ranges: Seq<MemoryRange>,
    page_size: u64,
    anon_pages: A,
    read: R,
    error: IntersectionError,
)
    requires
        ranges_fit(ranges, page_size as int),
        reads_any_stretch(read),
        intersection_delta_error(host, ranges, page_size, anon_pages, read, error),
    ensures
        exists|failed: int|
            {
                &&& 0 <= failed < ranges.len()
                &&& !host.contains_key((#[trigger] ranges[failed]).gpa) ==> error
                    == IntersectionError::Anon(PagemapAnonError::GetHostAddressFailed)
                &&& host.contains_key(ranges[failed].gpa) ==> match error {
                    IntersectionError::Anon(e) => call_ensures(
                        anon_pages,
                        (host[ranges[failed].gpa], ranges[failed].length),
                        Err::<Vec<bool>, PagemapAnonError>(e),
                    ),
                    IntersectionError::SoftDirty(e) => pages::reports_error(
                        host[ranges[failed].gpa],
                        ranges[failed].length,
                        page_size,
                        read,
                        e,
                    ),
                }
                &&& forall|i: int|
                    0 <= i < failed ==> was_read(host, #[trigger] ranges[i], page_size, read)
            },
{
    let (failed, maps) = choose|failed: int, maps: Seq<Seq<bool>>|
        {
            &&& 0 <= failed < ranges.len()
            &&& #[trigger] all_both(host, ranges.take(failed), page_size, anon_pages, read, maps)
            &&& range_both_error(host, ranges[failed], page_size, anon_pages, read, error)
        };
    let before = ranges.take(failed);
    assert forall|i: int| 0 <= i < failed implies was_read(
        host,
        #[trigger] ranges[i],
        page_size,
        read,
    ) by {
        assert(before[i] == ranges[i]);
        assert(range_both(host, before[i], page_size, anon_pages, read, maps[i]));
        let found = lemma_both_bitmaps_were_read(
            host,
            ranges[i],
            page_size,
            anon_pages,
            read,
            maps[i],
        );
        assert(read_for(host, ranges[i], page_size, read, found.1));
    }
}

/// Whether ranges lie one behind the other, with all of their pages.
pub open spec fn ascending(ranges: Seq<MemoryRange>, page_size: int) -> bool {
    forall|i: int, j: int|
        0 <= i < j < ranges.len() ==> (#[trigger] ranges[i]).gpa + pages_of(ranges[i], page_size)
            * page_size <= (#[trigger] ranges[j]).gpa
}

/// Whether a range ends before another starts, or where it does at the start of one of the given ranges.
pub open spec fn comes_before(a: (int, int), b: (int, int), ranges: Seq<MemoryRange>) -> bool {
    ||| a.0 + a.1 < b.0
    ||| a.0 + a.1 == b.0 && exists|i: int|
        0 <= i < ranges.len() && (#[trigger] ranges[i]).gpa == b.0
}

proof fn lemma_delta_in_order(ranges: Seq<MemoryRange>, maps: Seq<Seq<bool>>, page_size: int)
    requires
        page_size > 0,
        bitmaps_fit(ranges, maps, page_size),
        ascending(ranges, page_size),
    ensures
        ({
            let found = delta(ranges, maps, page_size);
            &&& forall|k: int| 0 <= k < found.len() ==> (#[trigger] found[k]).1 > 0
            &&& forall|k: int|
                0 <= k < found.len() ==> (#[trigger] found[k]).0 + found[k].1
                    <= ranges.last().gpa + pages_of(ranges.last(), page_size) * page_size
            &&& forall|j: int, k: int|
                0 <= j < k < found.len() ==> comes_before(
                    #[trigger] found[j],
                    #[trigger] found[k],
                    ranges,
                )
        }),
    decreases ranges.len(),
{
    if ranges.len() > 0 {
        let fewer = ranges.drop_last();
        let less = maps.drop_last();
        let last = ranges.last();
        let bits = maps.last();
        assert forall|i: int| 0 <= i < fewer.len() implies (#[trigger] less[i]).len() <= pages_of(
            fewer[i],
            page_size,
        ) by {
            assert(less[i] == maps[i] && fewer[i] == ranges[i]);
        }
        assert forall|i: int, j: int| 0 <= i < j < fewer.len() implies (#[trigger] fewer[i]).gpa
            + pages_of(fewer[i], page_size) * page_size <= (#[trigger] fewer[j]).gpa by {
            assert(fewer[i] == ranges[i] && fewer[j] == ranges[j]);
        }
        lemma_delta_in_order(fewer, less, page_size);
        pagemap_anon::law_coalesced_ranges_are_maximal(last.gpa as int, bits, page_size);
        let old = delta(fewer, less, page_size);
        let new = pagemap_anon::coalesced(last.gpa as int, bits, page_size);
        let found = delta(ranges, maps, page_size);
        let n = ranges.len() - 1;
        assert(ranges[n] == last && maps[n] == bits);
        assert(bits.len() * page_size <= pages_of(last, page_size) * page_size) by (nonlinear_arith)
            requires
                bits.len() <= pages_of(last, page_size),
                page_size > 0,
        ;
        lemma_page_count_bounds(last.length as int, page_size);
        assert(pages_of(last, page_size) * page_size >= 0) by (nonlinear_arith)
            requires
                pages_of(last, page_size) >= 0,
                page_size > 0,
        ;
        assert forall|k: int| 0 <= k < found.len() implies (#[trigger] found[k]).1 > 0 && found[k].0
            + found[k].1 <= last.gpa + pages_of(last, page_size) * page_size by {
            if k < old.len() {
                assert(found[k] == old[k]);
                lemma_nothing_without_ranges(fewer, less, page_size);
                assert(fewer[n - 1] == ranges[n - 1]);
            } else {
                assert(found[k] == new[k - old.len()]);
            }
        }
        assert forall|j: int, k: int| 0 <= j < k < found.len() implies comes_before(
            #[trigger] found[j],
            #[trigger] found[k],
            ranges,
        ) by {
            if k < old.len() {
                assert(found[j] == old[j] && found[k] == old[k]);
                assert(comes_before(old[j], old[k], fewer));
                if old[j].0 + old[j].1 == old[k].0 {
                    let i = choose|i: int|
                        0 <= i < fewer.len() && (#[trigger] fewer[i]).gpa == old[k].0;
                    assert(ranges[i] == fewer[i]);
                }
            } else if j >= old.len() {
                assert(found[j] == new[j - old.len()] && found[k] == new[k - old.len()]);
            } else {
                assert(found[j] == old[j] && found[k] == new[k - old.len()]);
                lemma_nothing_without_ranges(fewer, less, page_size);
                assert(fewer[n - 1] == ranges[n - 1]);
                assert(ranges[n].gpa == last.gpa);
            }
        }
    }
}

proof fn lemma_nothing_without_ranges(ranges: Seq<MemoryRange>, maps: Seq<Seq<bool>>, page_size: int)
    ensures
        delta(ranges, maps, page_size).len() > 0 ==> ranges.len() > 0,
{
}

/// What is handed out is in order and merged: for ranges that lie one behind the other, each range that
/// is handed out is not empty and ends before the next one starts; the two touch only where an input
/// range starts.
pub proof fn law_delta_is_in_order(
    out: Seq<MemoryRange>,
    stats: SoftDirtyStats,
    ranges: Seq<MemoryRange>,
    maps: Seq<Seq<bool>>,
    page_size: int,
)
    requires
        page_size > 0,
        bitmaps_fit(ranges, maps, page_size),
        ascending(ranges, page_size),
        filtered(out, stats, ranges, maps, page_size),
    ensures
        forall|k: int| 0 <= k < out.len() ==> (#[trigger] out[k]).length > 0,
        forall|j: int, k: int|
            0 <= j < k < out.len() ==> {
                ||| (#[trigger] out[j]).gpa + out[j].length < (#[trigger] out[k]).gpa
                ||| out[j].gpa + out[j].length == out[k].gpa && exists|i: int|
                    0 <= i < ranges.len() && (#[trigger] ranges[i]).gpa == out[k].gpa
            },
{
    lemma_delta_in_order(ranges, maps, page_size);
    let found = delta(ranges, maps, page_size);
    assert(found == pagemap_anon::ranges_view(out));
    assert forall|k: int| 0 <= k < out.len() implies (#[trigger] out[k]).length > 0 by {
        assert(found[k] == out[k]@);
    }
    assert forall|j: int, k: int| 0 <= j < k < out.len() implies {
        ||| (#[trigger] out[j]).gpa + out[j].length < (#[trigger] out[k]).gpa
        ||| out[j].gpa + out[j].length == out[k].gpa && exists|i: int|
            0 <= i < ranges.len() && (#[trigger] ranges[i]).gpa == out[k].gpa
    } by {
        assert(found[j] == out[j]@ && found[k] == out[k]@);
        assert(comes_before(found[j], found[k], ranges));
        if out[j].gpa + out[j].length == out[k].gpa {
            let i = choose|i: int| 0 <= i < ranges.len() && (#[trigger] ranges[i]).gpa == found[k].0;
            assert(ranges[i].gpa == out[k].gpa);
        }
    }
}

} // verus!
