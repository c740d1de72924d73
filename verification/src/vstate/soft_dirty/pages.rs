//! The soft-dirty bits of the host pages of a region, and the request that clears them.

use super::error::{ClearRefsFailure, PagemapReadFailure, SoftDirtyError};
use crate::outside::u64_from_ne_bytes;
use vstd::prelude::*;

verus! {

/// Bit 55 of a pagemap entry: soft-dirty flag.
pub const PAGEMAP_SOFT_DIRTY_BIT: u64 = 1u64 << 55u64;

/// Bit 62: page is swapped out (not present in RAM).
pub const PAGEMAP_SWAPPED_BIT: u64 = 1u64 << 62u64;

/// The request written to clear_refs: "4" clears the soft-dirty bits only.
pub const CLEAR_REFS_SOFT_DIRTY: [u8; 2] = [0x34u8, 0x0au8];

/// Size of a pagemap entry in bytes.
pub const PAGEMAP_ENTRY_SIZE: usize = 8;

/// The file that holds one entry for each page of the process.
pub const PAGEMAP_PATH: &'static str = "/proc/self/pagemap";

/// The file that takes requests to clear page flags.
pub const CLEAR_REFS_PATH: &'static str = "/proc/self/clear_refs";

/// Whether bit `bit` of an entry is set.
pub open spec fn bit_set(entry: u64, bit: u64) -> bool {
    (entry >> bit) & 1 == 1
}

/// Whether a pagemap entry counts as dirty: its soft-dirty bit (55) is set, or the page is swapped
/// out (62) and the soft-dirty bit cannot be observed.
pub open spec fn entry_dirty(entry: u64) -> bool {
    bit_set(entry, 55) || bit_set(entry, 62)
}

/// How many pages it takes to hold `length` bytes.
pub open spec fn page_count(length: int, page_size: int) -> int {
    if length % page_size == 0 {
        length / page_size
    } else {
        length / page_size + 1
    }
}

/// A stretch of the pagemap file.
#[derive(Debug, Clone, Copy, PartialEq, Eq, Structural)]
pub struct PagemapRead {
    /// Offset of the first byte.
    pub offset: u64,
    /// How many bytes to read.
    pub len: usize,
}

/// The stretch of the pagemap file that holds the entries of a region of host memory.
pub open spec fn pagemap_read_of(host_addr: u64, length: u64, page_size: u64) -> PagemapRead {
    PagemapRead {
        offset: (host_addr as int / page_size as int * 8) as u64,
        len: (page_count(length as int, page_size as int) * 8) as usize,
    }
}

/// Whether the size of a region lets its pagemap entries be addressed.
pub open spec fn region_addressable(host_addr: u64, length: u64, page_size: u64) -> bool {
    &&& host_addr as int / page_size as int * 8 <= u64::MAX
    &&& page_count(length as int, page_size as int) * 8 <= usize::MAX
}

/// Entry `i` of a stretch of the pagemap file.
pub open spec fn pagemap_entry(buf: Seq<u8>, i: int) -> u64 {
    crate::outside::native_value(buf.subrange(i * 8, i * 8 + 8)) as u64
}

/// The dirty pages that a stretch of the pagemap file reports.
pub open spec fn dirty_bits(buf: Seq<u8>, pages: nat) -> Seq<bool> {
    Seq::new(pages, |i: int| entry_dirty(pagemap_entry(buf, i)))
}

/// The error that stands for a failure to read the pagemap file.
pub open spec fn is_pagemap_error(failure: PagemapReadFailure, error: SoftDirtyError) -> bool {
    match failure {
        PagemapReadFailure::Open(e) => error matches SoftDirtyError::OpenFailed { path, source }
            && path@ == PAGEMAP_PATH@ && source == e,
        PagemapReadFailure::Seek(e) => error matches SoftDirtyError::SeekFailed { path, source }
            && path@ == PAGEMAP_PATH@ && source == e,
        PagemapReadFailure::Read(e) => error matches SoftDirtyError::ReadFailed { path, source }
            && path@ == PAGEMAP_PATH@ && source == e,
    }
}

/// The error that stands for a failure to write the clear_refs file.
pub open spec fn is_clear_refs_error(failure: ClearRefsFailure, error: SoftDirtyError) -> bool {
    match failure {
        ClearRefsFailure::Open(e) => error matches SoftDirtyError::OpenFailed { path, source }
            && path@ == CLEAR_REFS_PATH@ && source == e,
        ClearRefsFailure::Write(e) => error matches SoftDirtyError::WriteFailed { path, source }
            && path@ == CLEAR_REFS_PATH@ && source == e,
    }
}

/// Interprets one pagemap entry for the soft-dirty window.
///
/// The soft-dirty bit is only meaningful for present pages. A swapped-out anonymous page was
/// necessarily written, yet its soft-dirty bit is unobservable, so it is reported as dirty: to
/// take an unchanged swapped page is a safe superset, to drop a changed one is stale data at
/// restore.
pub fn soft_dirty_entry_reports_dirty(entry: u64) -> (dirty: bool)
    ensures
        dirty == entry_dirty(entry),
        dirty <==> entry & 0x0080_0000_0000_0000u64 != 0 || entry & 0x4000_0000_0000_0000u64 != 0,
{
    proof {
        law_two_bits_make_an_entry_dirty(entry);
        assert((entry & ((1u64 << 62u64) | (1u64 << 55u64))) != 0 <==> ((entry >> 55u64) & 1 == 1)
            || ((entry >> 62u64) & 1 == 1)) by (bit_vector);
    }
    (entry & (PAGEMAP_SWAPPED_BIT | PAGEMAP_SOFT_DIRTY_BIT)) != 0
}

/// Locates the pagemap entries of a host memory region.
///
/// Fails when `host_addr` is not page-aligned.
pub fn plan_pagemap_read(host_addr: u64, length: u64, page_size: u64) -> (r: Result<
    PagemapRead,
    SoftDirtyError,
>)
    requires
        page_size > 0,
        host_addr % page_size == 0 ==> region_addressable(host_addr, length, page_size),
    ensures
        host_addr % page_size != 0 ==> r == Err::<PagemapRead, SoftDirtyError>(
            SoftDirtyError::NotPageAligned,
        ),
        host_addr % page_size == 0 ==> r == Ok::<PagemapRead, SoftDirtyError>(
            pagemap_read_of(host_addr, length, page_size),
        ),
        r matches Ok(stretch) ==> {
            &&& stretch.offset * page_size == host_addr * 8
            &&& stretch.len % 8 == 0
            &&& length <= stretch.len as int / 8 * page_size < length + page_size
        },
{
    proof {
        if host_addr % page_size == 0 {
            law_stretch_holds_the_entries_of_the_region(host_addr, length, page_size);
        }
    }
    if host_addr % page_size != 0 {
        return Err(SoftDirtyError::NotPageAligned);
    }
    let mut num_pages: u64 = length / page_size;
    if length % page_size != 0 {
        proof {
            assert(length / page_size < u64::MAX) by (nonlinear_arith)
                requires
                    page_size > 0,
                    length % page_size != 0,
                    length <= u64::MAX,
            ;
        }
        num_pages = num_pages + 1;
    }
    Ok(
        PagemapRead {
            offset: (host_addr / page_size) * 8,
            len: num_pages as usize * PAGEMAP_ENTRY_SIZE,
        },
    )
}

/// Reads the dirty pages out of a stretch of the pagemap file.
pub fn decode_soft_dirty_pages(buf: &[u8]) -> (pages: Vec<bool>)
    requires
        buf@.len() % 8 == 0,
    ensures
        pages@ == dirty_bits(buf@, (buf@.len() / 8) as nat),
        pages@.len() * 8 == buf@.len(),
        forall|i: int|
            0 <= i < pages@.len() ==> (#[trigger] pages@[i] <==> {
                let entry = crate::outside::native_value(
                    seq![
                        buf@[8 * i],
                        buf@[8 * i + 1],
                        buf@[8 * i + 2],
                        buf@[8 * i + 3],
                        buf@[8 * i + 4],
                        buf@[8 * i + 5],
                        buf@[8 * i + 6],
                        buf@[8 * i + 7],
                    ],
                );
                ||| entry as int / 0x0080_0000_0000_0000 % 2 == 1
                ||| entry as int / 0x4000_0000_0000_0000 % 2 == 1
            }),
{
    let buf_len: usize = buf.len();
    let num_pages: usize = buf_len / PAGEMAP_ENTRY_SIZE;
    let mut pages: Vec<bool> = Vec::new();
    let mut page: usize = 0;
    while page < num_pages
        invariant
            page <= num_pages,
            num_pages * 8 == buf_len,
            buf_len == buf@.len(),
            pages@ == dirty_bits(buf@, page as nat),
        decreases num_pages - page,
    {
        let at: usize = page * PAGEMAP_ENTRY_SIZE;
        let bytes: [u8; 8] = [
            buf[at],
            buf[at + 1],
            buf[at + 2],
            buf[at + 3],
            buf[at + 4],
            buf[at + 5],
            buf[at + 6],
            buf[at + 7],
        ];
        assert(bytes@ =~= buf@.subrange(page * 8, page * 8 + 8));
        let entry: u64 = u64_from_ne_bytes(bytes);
        pages.push(soft_dirty_entry_reports_dirty(entry));
        assert(pages@ =~= dirty_bits(buf@, (page + 1) as nat));
        page = page + 1;
    }
    proof {
        assert forall|i: int| 0 <= i < pages@.len() implies (#[trigger] pages@[i] <==> {
            let entry = crate::outside::native_value(
                seq![
                    buf@[8 * i],
                    buf@[8 * i + 1],
                    buf@[8 * i + 2],
                    buf@[8 * i + 3],
                    buf@[8 * i + 4],
                    buf@[8 * i + 5],
                    buf@[8 * i + 6],
                    buf@[8 * i + 7],
                ],
            );
            ||| entry as int / 0x0080_0000_0000_0000 % 2 == 1
            ||| entry as int / 0x4000_0000_0000_0000 % 2 == 1
        }) by {
            law_page_is_judged_by_its_own_bytes(buf@, pages@.len(), i);
        }
    }
    pages
}

/// Whether `bits` is what the pagemap file may report for a region, read by `read`.
pub open spec fn reports_pages<R: Fn(PagemapRead) -> Result<Vec<u8>, PagemapReadFailure>>(
    host_addr: u64,
    length: u64,
    page_size: u64,
    read: R,
    bits: Seq<bool>,
) -> bool {
    &&& host_addr % page_size == 0
    &&& exists|buf: Vec<u8>|
        call_ensures(
            read,
            (pagemap_read_of(host_addr, length, page_size),),
            Ok::<Vec<u8>, PagemapReadFailure>(buf),
        ) && bits == #[trigger] dirty_bits(
            buf@,
            page_count(length as int, page_size as int) as nat,
        )
}

/// Whether `error` is what the lookup of a region may fail with, read by `read`.
pub open spec fn reports_error<R: Fn(PagemapRead) -> Result<Vec<u8>, PagemapReadFailure>>(
    host_addr: u64,
    length: u64,
    page_size: u64,
    read: R,
    error: SoftDirtyError,
) -> bool {
    if host_addr % page_size != 0 {
        error == SoftDirtyError::NotPageAligned
    } else {
        exists|failure: PagemapReadFailure|
            call_ensures(
                read,
                (pagemap_read_of(host_addr, length, page_size),),
                Err::<Vec<u8>, PagemapReadFailure>(failure),
            ) && #[trigger] is_pagemap_error(failure, error)
    }
}

/// Whether a pagemap reader can be asked for a stretch and hands back as many bytes as it was asked
/// for.
pub open spec fn reads_exactly<R: Fn(PagemapRead) -> Result<Vec<u8>, PagemapReadFailure>>(
    read: R,
    stretch: PagemapRead,
) -> bool {
    &&& call_requires(read, (stretch,))
    &&& forall|buf: Vec<u8>| #[trigger]
        call_ensures(read, (stretch,), Ok::<Vec<u8>, PagemapReadFailure>(buf)) ==> buf@.len()
            == stretch.len
}

/// Reads the soft-dirty bitmap of a host memory region.
///
/// `read` reads a stretch of `/proc/self/pagemap`; it is not asked when `host_addr` is not
/// page-aligned. Returns one bool per host page: true = written since the soft-dirty bits were last
/// cleared.
pub fn get_soft_dirty_pages<R: Fn(PagemapRead) -> Result<Vec<u8>, PagemapReadFailure>>(
    host_addr: u64,
    length: u64,
    page_size: u64,
    read: &R,
) -> (r: Result<Vec<bool>, SoftDirtyError>)
    requires
        page_size > 0,
        host_addr % page_size == 0 ==> {
            &&& region_addressable(host_addr, length, page_size)
            &&& reads_exactly(*read, pagemap_read_of(host_addr, length, page_size))
        },
    ensures
        match r {
            Ok(pages) => reports_pages(host_addr, length, page_size, *read, pages@),
            Err(e) => reports_error(host_addr, length, page_size, *read, e),
        },
        r matches Ok(pages) ==> pages@.len() == page_count(length as int, page_size as int),
{
    let stretch = match plan_pagemap_read(host_addr, length, page_size) {
        Ok(stretch) => stretch,
        Err(e) => {
            return Err(e);
        },
    };
    match read(stretch) {
        Ok(buf) => {
            let pages = decode_soft_dirty_pages(buf.as_slice());
            assert(pages@ == dirty_bits(
                buf@,
                page_count(length as int, page_size as int) as nat,
            ));
            Ok(pages)
        },
        Err(failure) => {
            let error = match failure {
                PagemapReadFailure::Open(source) => SoftDirtyError::OpenFailed {
                    path: PAGEMAP_PATH.to_string(),
                    source,
                },
                PagemapReadFailure::Seek(source) => SoftDirtyError::SeekFailed {
                    path: PAGEMAP_PATH.to_string(),
                    source,
                },
                PagemapReadFailure::Read(source) => SoftDirtyError::ReadFailed {
                    path: PAGEMAP_PATH.to_string(),
                    source,
                },
            };
            assert(is_pagemap_error(failure, error));
            Err(error)
        },
    }
}

/// Whether the writer can be asked to clear the soft-dirty bits.
pub open spec fn can_clear<W: FnOnce(&str, &[u8]) -> Result<(), ClearRefsFailure>>(
    write: W,
) -> bool {
    forall|path: &str, request: &[u8]|
        path@ == CLEAR_REFS_PATH@ && request@ == CLEAR_REFS_SOFT_DIRTY@ ==> #[trigger] call_requires(
            write,
            (path, request),
        )
}

/// Whether `r` is what clearing the soft-dirty bits through the writer may come to.
pub open spec fn clears<W: FnOnce(&str, &[u8]) -> Result<(), ClearRefsFailure>>(
    write: W,
    r: Result<(), SoftDirtyError>,
) -> bool {
    exists|path: &str, request: &[u8], outcome: Result<(), ClearRefsFailure>|
        {
            &&& #[trigger] call_ensures(write, (path, request), outcome)
            &&& path@ == CLEAR_REFS_PATH@
            &&& request@ == CLEAR_REFS_SOFT_DIRTY@
            &&& match (outcome, r) {
                (Ok(()), Ok(())) => true,
                (Err(failure), Err(error)) => is_clear_refs_error(failure, error),
                _ => false,
            }
        }
}

/// Clears (arms) the soft-dirty bits of the whole process.
///
/// This is the only arming primitive. `write` opens the file at the given path and writes the given
/// request to it. The caller must invoke this again only after the previous delta window has been
/// durably written.
pub fn clear_soft_dirty<W: FnOnce(&str, &[u8]) -> Result<(), ClearRefsFailure>>(write: W) -> (r:
    Result<(), SoftDirtyError>)
    requires
        can_clear(write),
    ensures
        clears(write, r),
{
    let request: [u8; 2] = CLEAR_REFS_SOFT_DIRTY;
    match write(CLEAR_REFS_PATH, request.as_slice()) {
        Ok(()) => Ok(()),
        Err(ClearRefsFailure::Open(source)) => Err(
            SoftDirtyError::OpenFailed { path: CLEAR_REFS_PATH.to_string(), source },
        ),
        Err(ClearRefsFailure::Write(source)) => Err(
            SoftDirtyError::WriteFailed { path: CLEAR_REFS_PATH.to_string(), source },
        ),
    }
}

/// An entry counts as dirty by its bits 55 and 62 and by no other: by them as masks, and as binary
/// digits of its value.
pub proof fn law_two_bits_make_an_entry_dirty(entry: u64)
    ensures
        entry_dirty(entry) <==> entry & 0x0080_0000_0000_0000u64 != 0 || entry
            & 0x4000_0000_0000_0000u64 != 0,
        entry_dirty(entry) <==> entry as int / 0x0080_0000_0000_0000 % 2 == 1 || entry as int
            / 0x4000_0000_0000_0000 % 2 == 1,
{
    assert((entry >> 55u64) & 1 == 1 <==> entry & 0x0080_0000_0000_0000u64 != 0) by (bit_vector);
    assert((entry >> 62u64) & 1 == 1 <==> entry & 0x4000_0000_0000_0000u64 != 0) by (bit_vector);
    assert((entry >> 55u64) & 1 == 1 <==> entry / 0x0080_0000_0000_0000u64 % 2 == 1)
        by (bit_vector);
    assert((entry >> 62u64) & 1 == 1 <==> entry / 0x4000_0000_0000_0000u64 % 2 == 1)
        by (bit_vector);
}

proof fn lemma_little_endian_bound(bytes: Seq<u8>)
    ensures
        bytes.len() == 8 ==> crate::outside::little_endian_value(bytes) == bytes[0] + 0x100 * bytes[1]
            + 0x1_0000 * bytes[2] + 0x100_0000 * bytes[3] + 0x1_0000_0000 * bytes[4]
            + 0x100_0000_0000 * bytes[5] + 0x1_0000_0000_0000 * bytes[6] + 0x100_0000_0000_0000
            * bytes[7],
        bytes.len() == 8 ==> crate::outside::little_endian_value(bytes) <= u64::MAX,
{
    if bytes.len() == 8 {
        reveal_with_fuel(crate::outside::little_endian_value, 9);
        let b1 = bytes.drop_first();
        let b2 = b1.drop_first();
        let b3 = b2.drop_first();
        let b4 = b3.drop_first();
        let b5 = b4.drop_first();
        let b6 = b5.drop_first();
        let b7 = b6.drop_first();
        assert(b1.first() == bytes[1] && b2.first() == bytes[2] && b3.first() == bytes[3]);
        assert(b4.first() == bytes[4] && b5.first() == bytes[5] && b6.first() == bytes[6]);
        assert(b7.first() == bytes[7]);
        assert(b7.drop_first().len() == 0);
    }
}

/// Where bits 55 and 62 of a number stand in its bytes, from the sixth on.
proof fn lemma_bits_in_bytes(value: int, low: int, sixth: int, seventh: int)
    requires
        value == low + 0x1_0000_0000_0000 * sixth + 0x100_0000_0000_0000 * seventh,
        0 <= low < 0x1_0000_0000_0000,
        0 <= sixth < 256,
        0 <= seventh < 256,
    ensures
        value / 0x0080_0000_0000_0000 % 2 == 1 <==> sixth >= 128,
        value / 0x4000_0000_0000_0000 % 2 == 1 <==> seventh / 64 % 2 == 1,
{
    assert(value / 0x0080_0000_0000_0000 == 2 * seventh + sixth / 128);
    assert(value / 0x4000_0000_0000_0000 == seventh / 64);
}

/// Page `i` of a stretch is judged by its bytes `8 * i` to `8 * i + 7`: it is dirty exactly when bit 55
/// or bit 62 of the number that they spell in the byte order of the machine is set. With the least
/// significant byte first these are the top bit of the byte before the last and the second bit of the
/// last; with the most significant byte first, the top bit of the second byte and the second bit of the
/// first.
pub proof fn law_page_is_judged_by_its_own_bytes(buf: Seq<u8>, pages: nat, i: int)
    requires
        buf.len() == 8 * pages,
        0 <= i < pages,
    ensures
        dirty_bits(buf, pages).len() == pages,
        dirty_bits(buf, pages)[i] <==> {
            let entry = crate::outside::native_value(
                seq![
                    buf[8 * i],
                    buf[8 * i + 1],
                    buf[8 * i + 2],
                    buf[8 * i + 3],
                    buf[8 * i + 4],
                    buf[8 * i + 5],
                    buf[8 * i + 6],
                    buf[8 * i + 7],
                ],
            );
            ||| entry as int / 0x0080_0000_0000_0000 % 2 == 1
            ||| entry as int / 0x4000_0000_0000_0000 % 2 == 1
        },
        vstd::endian::endianness() == vstd::endian::Endian::Little ==> (dirty_bits(buf, pages)[i]
            <==> buf[8 * i + 6] >= 128 || buf[8 * i + 7] / 64 % 2 == 1),
        vstd::endian::endianness() == vstd::endian::Endian::Big ==> (dirty_bits(buf, pages)[i]
            <==> buf[8 * i + 1] >= 128 || buf[8 * i] / 64 % 2 == 1),
{
    let bytes = seq![
        buf[8 * i],
        buf[8 * i + 1],
        buf[8 * i + 2],
        buf[8 * i + 3],
        buf[8 * i + 4],
        buf[8 * i + 5],
        buf[8 * i + 6],
        buf[8 * i + 7],
    ];
    assert(buf.subrange(i * 8, i * 8 + 8) =~= bytes);
    let turned = bytes.reverse();
    lemma_little_endian_bound(bytes);
    lemma_little_endian_bound(turned);
    law_two_bits_make_an_entry_dirty(pagemap_entry(buf, i));
    if vstd::endian::endianness() == vstd::endian::Endian::Little {
        let value = crate::outside::little_endian_value(bytes) as int;
        let low = value - 0x1_0000_0000_0000 * bytes[6] - 0x100_0000_0000_0000 * bytes[7];
        lemma_bits_in_bytes(value, low, bytes[6] as int, bytes[7] as int);
    } else {
        let value = crate::outside::little_endian_value(turned) as int;
        let low = value - 0x1_0000_0000_0000 * turned[6] - 0x100_0000_0000_0000 * turned[7];
        lemma_bits_in_bytes(value, low, turned[6] as int, turned[7] as int);
    }
}

/// A stretch that is the concatenation of the encodings of entries reports a page for each, and it is
/// dirty exactly when bit 55 or bit 62 of its own entry is set.
pub proof fn law_each_entry_decides_its_page(buf: Seq<u8>, entries: Seq<u64>, i: int)
    requires
        buf.len() == 8 * entries.len(),
        forall|k: int|
            0 <= k < entries.len() ==> crate::outside::native_value(
                buf.subrange(8 * k, 8 * k + 8),
            ) == #[trigger] entries[k],
        0 <= i < entries.len(),
    ensures
        dirty_bits(buf, entries.len()).len() == entries.len(),
        dirty_bits(buf, entries.len())[i] <==> entries[i] & 0x0080_0000_0000_0000u64 != 0
            || entries[i] & 0x4000_0000_0000_0000u64 != 0,
{
    law_page_is_judged_by_its_own_bytes(buf, entries.len(), i);
    law_two_bits_make_an_entry_dirty(entries[i]);
    assert(buf.subrange(8 * i, 8 * i + 8) =~= seq![
        buf[8 * i],
        buf[8 * i + 1],
        buf[8 * i + 2],
        buf[8 * i + 3],
        buf[8 * i + 4],
        buf[8 * i + 5],
        buf[8 * i + 6],
        buf[8 * i + 7],
    ]);
    assert(crate::outside::native_value(buf.subrange(8 * i, 8 * i + 8)) == entries[i]);
}

/// Two stretches that hold the same eight bytes for a page report the same of it, whatever else they
/// hold.
pub proof fn law_other_bytes_do_not_matter(a: Seq<u8>, b: Seq<u8>, m: nat, n: nat, i: int)
    requires
        a.len() == 8 * m,
        b.len() == 8 * n,
        0 <= i < m,
        i < n,
        forall|k: int| 8 * i <= k < 8 * i + 8 ==> a[k] == b[k],
    ensures
        dirty_bits(a, m)[i] == dirty_bits(b, n)[i],
{
    law_page_is_judged_by_its_own_bytes(a, m, i);
    law_page_is_judged_by_its_own_bytes(b, n, i);
}

/// A region takes just as many pages as hold it: one page less would be too few.
pub proof fn law_page_count_is_the_least(length: int, page_size: int)
    requires
        length >= 0,
        page_size > 0,
    ensures
        length <= page_count(length, page_size) * page_size < length + page_size,
        page_count(length, page_size) >= 0,
{
    let q = length / page_size;
    vstd::arithmetic::div_mod::lemma_fundamental_div_mod(length, page_size);
    assert(page_size * q == q * page_size) by (nonlinear_arith);
    assert((q + 1) * page_size == q * page_size + page_size) by (nonlinear_arith);
    assert(q >= 0) by (nonlinear_arith)
        requires
            q == length / page_size,
            length >= 0,
            page_size > 0,
    ;
}

/// The stretch of the pagemap that is read for a region starts with the entry of its first page, eight
/// bytes into the file for each page below it, and holds eight bytes for each page of the region.
pub proof fn law_stretch_holds_the_entries_of_the_region(host_addr: u64, length: u64, page_size: u64)
    requires
        page_size > 0,
        host_addr % page_size == 0,
        region_addressable(host_addr, length, page_size),
    ensures
        pagemap_read_of(host_addr, length, page_size).offset * page_size == host_addr * 8,
        pagemap_read_of(host_addr, length, page_size).len % 8 == 0,
        length <= pagemap_read_of(host_addr, length, page_size).len as int / 8 * page_size < length
            + page_size,
{
    let q = host_addr as int / page_size as int;
    vstd::arithmetic::div_mod::lemma_fundamental_div_mod(host_addr as int, page_size as int);
    assert((q * 8) * page_size == (page_size * q) * 8) by (nonlinear_arith);
    assert(q >= 0) by (nonlinear_arith)
        requires
            q == host_addr as int / page_size as int,
            host_addr >= 0,
            page_size > 0,
    ;
    law_page_count_is_the_least(length as int, page_size as int);
}

/// What is reported for a region comes from the pagemap: the stretch that holds the entries of its
/// pages was read, and each page is judged by the eight bytes of its own entry.
pub proof fn law_report_comes_from_the_pagemap<
    R: Fn(PagemapRead) -> Result<Vec<u8>, PagemapReadFailure>,
>(host_addr: u64, length: u64, page_size: u64, read: R, bits: Seq<bool>)
    requires
        page_size > 0,
        region_addressable(host_addr, length, page_size),
        reads_exactly(read, pagemap_read_of(host_addr, length, page_size)),
        reports_pages(host_addr, length, page_size, read, bits),
    ensures
        host_addr as int % page_size as int == 0,
        length <= bits.len() * page_size < length + page_size,
        exists|stretch: PagemapRead, buf: Vec<u8>|
            {
                &&& #[trigger] call_ensures(
                    read,
                    (stretch,),
                    Ok::<Vec<u8>, PagemapReadFailure>(buf),
                )
                &&& stretch.offset * page_size == host_addr * 8
                &&& stretch.len == 8 * bits.len()
                &&& buf@.len() == 8 * bits.len()
                &&& forall|i: int|
                    0 <= i < bits.len() ==> (#[trigger] bits[i] <==> {
                        let entry = crate::outside::native_value(buf@.subrange(8 * i, 8 * i + 8));
                        ||| entry as int / 0x0080_0000_0000_0000 % 2 == 1
                        ||| entry as int / 0x4000_0000_0000_0000 % 2 == 1
                    })
            },
{
    let stretch = pagemap_read_of(host_addr, length, page_size);
    let buf = choose|buf: Vec<u8>|
        call_ensures(read, (stretch,), Ok::<Vec<u8>, PagemapReadFailure>(buf)) && bits
            == #[trigger] dirty_bits(
            buf@,
            page_count(length as int, page_size as int) as nat,
        );
    law_stretch_holds_the_entries_of_the_region(host_addr, length, page_size);
    law_page_count_is_the_least(length as int, page_size as int);
    assert(call_ensures(read, (stretch,), Ok::<Vec<u8>, PagemapReadFailure>(buf)));
    assert(buf@.len() == stretch.len);
    assert forall|i: int| 0 <= i < bits.len() implies (#[trigger] bits[i] <==> {
        let entry = crate::outside::native_value(buf@.subrange(8 * i, 8 * i + 8));
        ||| entry as int / 0x0080_0000_0000_0000 % 2 == 1
        ||| entry as int / 0x4000_0000_0000_0000 % 2 == 1
    }) by {
        law_page_is_judged_by_its_own_bytes(buf@, bits.len(), i);
        assert(buf@.subrange(8 * i, 8 * i + 8) =~= seq![
            buf@[8 * i],
            buf@[8 * i + 1],
            buf@[8 * i + 2],
            buf@[8 * i + 3],
            buf@[8 * i + 4],
            buf@[8 * i + 5],
            buf@[8 * i + 6],
            buf@[8 * i + 7],
        ]);
    }
}

/// A lookup fails only when the region does not start with a page, or when its stretch of the pagemap
/// could not be opened, positioned or read; the error says which, and of which file.
pub proof fn law_lookup_error_says_what_failed<
    R: Fn(PagemapRead) -> Result<Vec<u8>, PagemapReadFailure>,
>(host_addr: u64, length: u64, page_size: u64, read: R, error: SoftDirtyError)
    requires
        page_size > 0,
        host_addr % page_size == 0 ==> region_addressable(host_addr, length, page_size),
        reports_error(host_addr, length, page_size, read, error),
    ensures
        host_addr as int % page_size as int != 0 <==> error is NotPageAligned,
        host_addr as int % page_size as int == 0 ==> exists|
            stretch: PagemapRead,
            failure: PagemapReadFailure,
        |
            {
                &&& #[trigger] call_ensures(
                    read,
                    (stretch,),
                    Err::<Vec<u8>, PagemapReadFailure>(failure),
                )
                &&& stretch.offset * page_size == host_addr * 8
                &&& stretch.len % 8 == 0
                &&& length <= stretch.len as int / 8 * page_size < length + page_size
                &&& match error {
                    SoftDirtyError::OpenFailed { path, source } => failure
                        == PagemapReadFailure::Open(source) && path@ == "/proc/self/pagemap"@,
                    SoftDirtyError::SeekFailed { path, source } => failure
                        == PagemapReadFailure::Seek(source) && path@ == "/proc/self/pagemap"@,
                    SoftDirtyError::ReadFailed { path, source } => failure
                        == PagemapReadFailure::Read(source) && path@ == "/proc/self/pagemap"@,
                    _ => false,
                }
            },
{
    if host_addr % page_size == 0 {
        let stretch = pagemap_read_of(host_addr, length, page_size);
        law_stretch_holds_the_entries_of_the_region(host_addr, length, page_size);
        let failure = choose|failure: PagemapReadFailure|
            call_ensures(read, (stretch,), Err::<Vec<u8>, PagemapReadFailure>(failure))
                && #[trigger] is_pagemap_error(failure, error);
        assert(call_ensures(read, (stretch,), Err::<Vec<u8>, PagemapReadFailure>(failure)));
    }
}

/// The bits are cleared by writing `4` and a line feed to the clear_refs file of the process. That this
/// failed is reported, with the failed operation and the file.
pub proof fn law_clearing_writes_the_request<
    W: FnOnce(&str, &[u8]) -> Result<(), ClearRefsFailure>,
>(write: W, r: Result<(), SoftDirtyError>)
    requires
        clears(write, r),
    ensures
        exists|path: &str, request: &[u8], outcome: Result<(), ClearRefsFailure>|
            {
                &&& #[trigger] call_ensures(write, (path, request), outcome)
                &&& path@ == "/proc/self/clear_refs"@
                &&& request@ == seq![0x34u8, 0x0au8]
                &&& r is Ok <==> outcome is Ok
                &&& r matches Err(error) ==> match error {
                    SoftDirtyError::OpenFailed { path, source } => outcome == Err::<
                        (),
                        ClearRefsFailure,
                    >(ClearRefsFailure::Open(source)) && path@ == "/proc/self/clear_refs"@,
                    SoftDirtyError::WriteFailed { path, source } => outcome == Err::<
                        (),
                        ClearRefsFailure,
                    >(ClearRefsFailure::Write(source)) && path@ == "/proc/self/clear_refs"@,
                    _ => false,
                }
            },
{
    let (path, request, outcome) = choose|
        path: &str,
        request: &[u8],
        outcome: Result<(), ClearRefsFailure>,
    |
        {
            &&& #[trigger] call_ensures(write, (path, request), outcome)
            &&& path@ == CLEAR_REFS_PATH@
            &&& request@ == CLEAR_REFS_SOFT_DIRTY@
            &&& match (outcome, r) {
                (Ok(()), Ok(())) => true,
                (Err(failure), Err(error)) => is_clear_refs_error(failure, error),
                _ => false,
            }
        };
    assert(CLEAR_REFS_SOFT_DIRTY@ =~= seq![0x34u8, 0x0au8]);
    assert(call_ensures(write, (path, request), outcome));
}

} // verus!
