//! The soft-dirty ledger, run against a simulated kernel.

use std::cell::RefCell;
use std::collections::BTreeSet;
use std::io::{Error, ErrorKind};

use vm_memory::{Bytes, GuestAddress, GuestMemory, GuestMemoryMmap};
use vmm::vstate::pagemap_anon::{coalesce_pages_to_ranges, MemoryRange, PagemapAnonError};
use vmm::vstate::soft_dirty::{
    clear_soft_dirty, decode_soft_dirty_pages, delta_from_bitmaps,
    filter_memory_ranges_by_anon_and_soft_dirty, filter_memory_ranges_by_soft_dirty,
    get_soft_dirty_pages, intersect_pages, plan_pagemap_read, probe_soft_dirty_support,
    soft_dirty_entry_reports_dirty, AccountingMode, ArmOutcome, ClearRefsFailure,
    IntersectionError, PagemapRead, PagemapReadFailure, ProbeAction, ProbeEvent,
    SoftDirtyAccounting, SoftDirtyError, SoftDirtyStats, CLEAR_REFS_PATH, CLEAR_REFS_SOFT_DIRTY,
    PAGEMAP_PATH, PAGEMAP_SOFT_DIRTY_BIT, PAGEMAP_SWAPPED_BIT, PROBE_BYTE,
};

const PAGE_SIZE: u64 = 4096;
const PAGEMAP_PRESENT_BIT: u64 = 1 << 63;

/// How the bits of a simulated kernel behave.
#[derive(Clone, Copy, PartialEq, Eq)]
enum Tracking {
    /// A write sets the bit, the request clears it.
    Works,
    /// The bits are always clear, as without kernel support.
    AlwaysClear,
    /// The bits are always set.
    AlwaysSet,
    /// The request is accepted once and ignored afterwards.
    ClearsOnce,
    /// The first write after a request is recorded, later ones are not.
    RecordsOnce,
}

/// A kernel that keeps one soft-dirty bit per host page.
struct Kernel {
    tracking: Tracking,
    dirty: RefCell<BTreeSet<u64>>,
    swapped: RefCell<BTreeSet<u64>>,
    clears: RefCell<u32>,
    writes: RefCell<u32>,
}

impl Kernel {
    fn new(tracking: Tracking) -> Kernel {
        Kernel {
            tracking,
            dirty: RefCell::new(BTreeSet::new()),
            swapped: RefCell::new(BTreeSet::new()),
            clears: RefCell::new(0),
            writes: RefCell::new(0),
        }
    }

    fn write(&self, host_addr: u64) {
        *self.writes.borrow_mut() += 1;
        if self.tracking == Tracking::RecordsOnce && *self.writes.borrow() > 1 {
            return;
        }
        self.dirty.borrow_mut().insert(host_addr / PAGE_SIZE);
    }

    fn clear_refs(&self, path: &str, request: &[u8]) -> Result<(), ClearRefsFailure> {
        assert_eq!(path, "/proc/self/clear_refs");
        assert_eq!(request, b"4\n");
        *self.clears.borrow_mut() += 1;
        if self.tracking == Tracking::ClearsOnce && *self.clears.borrow() > 1 {
            return Ok(());
        }
        self.dirty.borrow_mut().clear();
        Ok(())
    }

    fn clear(&self) -> Result<(), SoftDirtyError> {
        clear_soft_dirty(|path: &str, request: &[u8]| self.clear_refs(path, request))
    }

    fn entry(&self, page: u64) -> u64 {
        if self.swapped.borrow().contains(&page) {
            return PAGEMAP_SWAPPED_BIT;
        }
        let set = match self.tracking {
            Tracking::AlwaysClear => false,
            Tracking::AlwaysSet => true,
            _ => self.dirty.borrow().contains(&page),
        };
        if set {
            PAGEMAP_PRESENT_BIT | PAGEMAP_SOFT_DIRTY_BIT
        } else {
            PAGEMAP_PRESENT_BIT
        }
    }

    fn read(&self, stretch: PagemapRead) -> Result<Vec<u8>, PagemapReadFailure> {
        let first = stretch.offset / 8;
        let mut bytes = Vec::new();
        for i in 0..(stretch.len / 8) as u64 {
            bytes.extend_from_slice(&self.entry(first + i).to_ne_bytes());
        }
        Ok(bytes)
    }
}

/// Runs a probe against a simulated kernel, and counts the mappings that are left.
fn run_probe(kernel: &Kernel) -> (Result<bool, SoftDirtyError>, i32) {
    let scratch = 7 * PAGE_SIZE;
    let mut mapped = 0;
    let (mut job, mut action) = probe_soft_dirty_support(PAGE_SIZE);
    loop {
        let event = match action {
            ProbeAction::MapScratch { len } => {
                assert_eq!(len, PAGE_SIZE);
                mapped += 1;
                // A fresh mapping is soft-dirty.
                kernel.dirty.borrow_mut().insert(scratch / PAGE_SIZE);
                ProbeEvent::Mapped(Ok(scratch))
            }
            ProbeAction::ClearRefs => ProbeEvent::Cleared(kernel.clear()),
            ProbeAction::Touch { addr } => {
                assert_eq!(addr, scratch);
                kernel.write(addr);
                ProbeEvent::Touched
            }
            ProbeAction::ReadPages { host_addr, length } => {
                ProbeEvent::PagesRead(get_soft_dirty_pages(host_addr, length, PAGE_SIZE, &|s| {
                    kernel.read(s)
                }))
            }
            ProbeAction::Unmap { addr, len } => {
                assert_eq!((addr, len), (scratch, PAGE_SIZE));
                mapped -= 1;
                ProbeEvent::Unmapped(Ok(()))
            }
            ProbeAction::Finished(result) => return (result, mapped),
        };
        let next = job.step(event);
        job = next.0;
        action = next.1;
    }
}

fn io_error() -> Error {
    Error::new(ErrorKind::Other, "simulated")
}

/// Builds guest memory of `num_pages` host pages starting at GPA 0.
fn fixture(num_pages: usize) -> (GuestMemoryMmap, u64) {
    let length = num_pages * PAGE_SIZE as usize;
    let guest_memory = GuestMemoryMmap::<()>::from_ranges(&[(GuestAddress(0), length)]).unwrap();
    let host_addr = guest_memory.get_host_address(GuestAddress(0)).unwrap() as u64;
    assert_eq!(host_addr % PAGE_SIZE, 0);
    (guest_memory, host_addr)
}

/// Writes one byte into page `idx` of guest memory, as the kernel sees it.
fn touch_page(kernel: &Kernel, guest_memory: &GuestMemoryMmap, idx: u64) {
    guest_memory
        .write_obj(PROBE_BYTE, GuestAddress(idx * PAGE_SIZE))
        .unwrap();
    let host_addr = guest_memory
        .get_host_address(GuestAddress(idx * PAGE_SIZE))
        .unwrap() as u64;
    kernel.write(host_addr);
}

fn pairs(ranges: &[MemoryRange]) -> Vec<(u64, u64)> {
    ranges.iter().map(|r| (r.gpa, r.length)).collect()
}

#[test]
fn test_soft_dirty_constants() {
    assert_eq!(PAGEMAP_SOFT_DIRTY_BIT, 1u64 << 55);
    assert_eq!(&CLEAR_REFS_SOFT_DIRTY, b"4\n");
}

#[test]
fn test_swapped_entry_reports_dirty() {
    // Present + soft-dirty: dirty.
    assert!(soft_dirty_entry_reports_dirty(
        PAGEMAP_PRESENT_BIT | PAGEMAP_SOFT_DIRTY_BIT
    ));
    // Present + clean: not dirty.
    assert!(!soft_dirty_entry_reports_dirty(PAGEMAP_PRESENT_BIT));
    // Swapped out with the soft-dirty bit unreadable: still dirty.
    assert!(soft_dirty_entry_reports_dirty(PAGEMAP_SWAPPED_BIT));
    // Swapped out with a stale soft-dirty bit set: dirty either way.
    assert!(soft_dirty_entry_reports_dirty(
        PAGEMAP_SWAPPED_BIT | PAGEMAP_SOFT_DIRTY_BIT
    ));
    // Neither present nor swapped nor dirty: not dirty.
    assert!(!soft_dirty_entry_reports_dirty(0));
    assert!(!soft_dirty_entry_reports_dirty(0x1234));
}

#[test]
fn test_accounting_arm_ack_disarm_cycle() {
    let kernel = Kernel::new(Tracking::Works);
    let mut acc = SoftDirtyAccounting::default();
    assert_eq!(acc.mode(), AccountingMode::Unprobed);
    assert!(!acc.is_armed());

    assert_eq!(
        acc.arm_with(|| Ok(true), || Ok(())).unwrap(),
        ArmOutcome::Armed
    );
    assert_eq!(acc.mode(), AccountingMode::SoftDirty);
    assert!(acc.is_armed());

    // Armed ledger: no re-probe, no clear_refs reset of the open window.
    assert_eq!(
        acc.arm_with(|| panic!("must not re-probe while armed"), || Ok(()))
            .unwrap(),
        ArmOutcome::AlreadyArmed
    );

    // Ack after a durable write re-arms (window rolls over).
    acc.ack_persisted(|path: &str, request: &[u8]| kernel.clear_refs(path, request))
        .unwrap();
    assert!(acc.is_armed());

    // Write failure: disarm, next arm re-probes and re-arms.
    acc.disarm();
    assert!(!acc.is_armed());
    assert_eq!(
        acc.arm_with(|| Ok(true), || Ok(())).unwrap(),
        ArmOutcome::Armed
    );
}

#[test]
fn test_accounting_degradation_matrix() {
    let kernel = Kernel::new(Tracking::Works);
    for probe_result in [Ok(false), Err(SoftDirtyError::NotPageAligned)] {
        let mut acc = SoftDirtyAccounting::default();
        assert_eq!(
            acc.arm_with(move || probe_result, || Ok(())).unwrap(),
            ArmOutcome::AnonOnly
        );
        assert_eq!(acc.mode(), AccountingMode::AnonOnly);
        assert!(!acc.is_armed());

        // Ack in AnonOnly mode must stay a no-op: there is no window ledger to roll over.
        acc.ack_persisted(|path: &str, request: &[u8]| kernel.clear_refs(path, request))
            .unwrap();
        assert_eq!(*kernel.clears.borrow(), 0);

        // The anon ledger failing too is final.
        acc.note_ledger_unusable();
        assert_eq!(acc.mode(), AccountingMode::Disabled);

        // Demotion is one-way: a later successful probe must not resurrect a disabled accountant.
        acc.note_ledger_unusable();
        assert_eq!(acc.mode(), AccountingMode::Disabled);
        assert_eq!(
            acc.arm_with(|| Ok(true), || Ok(())).unwrap(),
            ArmOutcome::Disabled
        );
        assert_eq!(acc.mode(), AccountingMode::Disabled);
        assert!(!acc.is_armed());
    }
}

#[test]
fn test_accounting_arm_clear_failure_degrades() {
    let mut acc = SoftDirtyAccounting::default();
    // Probe succeeds but the subsequent arming write fails.
    acc.arm_with(|| Ok(true), || Err(SoftDirtyError::NotPageAligned))
        .unwrap_err();
    // The mode must not claim SoftDirty.
    assert_ne!(acc.mode(), AccountingMode::SoftDirty);
    assert!(!acc.is_armed());
}

#[test]
fn accounting_arms_through_clear_refs() {
    let kernel = Kernel::new(Tracking::Works);
    kernel.write(3 * PAGE_SIZE);
    let mut acc = SoftDirtyAccounting::default();
    let outcome = acc
        .arm(
            || Ok(true),
            |path: &str, request: &[u8]| kernel.clear_refs(path, request),
        )
        .unwrap();
    assert_eq!(outcome, ArmOutcome::Armed);
    assert_eq!(*kernel.clears.borrow(), 1);
    assert!(kernel.dirty.borrow().is_empty());

    // A probe that fails arms nothing and leaves the bits alone.
    let mut degraded = SoftDirtyAccounting::default();
    let outcome = degraded
        .arm_with_probe(
            || Ok(false),
            |path: &str, request: &[u8]| kernel.clear_refs(path, request),
        )
        .unwrap();
    assert_eq!(outcome, ArmOutcome::AnonOnly);
    assert_eq!(*kernel.clears.borrow(), 1);
}

#[test]
fn accounting_ack_failure_disarms() {
    let mut acc = SoftDirtyAccounting::default();
    acc.arm_with(|| Ok(true), || Ok(())).unwrap();
    let err = acc
        .ack_persisted(|_: &str, _: &[u8]| Err(ClearRefsFailure::Write(io_error())))
        .unwrap_err();
    assert!(matches!(
        err,
        SoftDirtyError::WriteFailed { path, .. } if path == "/proc/self/clear_refs"
    ));
    assert_eq!(acc.mode(), AccountingMode::SoftDirty);
    assert!(!acc.is_armed());
}

#[test]
fn only_the_anon_ledger_is_demoted() {
    let mut acc = SoftDirtyAccounting::default();
    acc.note_ledger_unusable();
    assert_eq!(acc.mode(), AccountingMode::Unprobed);
    acc.arm_with(|| Ok(true), || Ok(())).unwrap();
    acc.note_ledger_unusable();
    assert_eq!(acc.mode(), AccountingMode::SoftDirty);
    assert!(acc.is_armed());
}

#[test]
fn test_get_soft_dirty_pages_not_page_aligned() {
    let kernel = Kernel::new(Tracking::Works);
    let unaligned = PAGE_SIZE + 1;
    let result = get_soft_dirty_pages(unaligned, PAGE_SIZE, PAGE_SIZE, &|s| kernel.read(s));
    assert!(matches!(
        result.unwrap_err(),
        SoftDirtyError::NotPageAligned
    ));
}

#[test]
fn test_get_soft_dirty_pages_empty_region() {
    let kernel = Kernel::new(Tracking::Works);
    let (_gm, host_addr) = fixture(1);
    let bits = get_soft_dirty_pages(host_addr, 0, PAGE_SIZE, &|s| kernel.read(s)).unwrap();
    assert!(bits.is_empty());
}

#[test]
fn pagemap_stretch_is_located_by_page() {
    assert_eq!(
        plan_pagemap_read(3 * PAGE_SIZE, 2 * PAGE_SIZE, PAGE_SIZE).unwrap(),
        PagemapRead { offset: 24, len: 16 }
    );
    // A part of a page counts as a page.
    assert_eq!(
        plan_pagemap_read(0, PAGE_SIZE + 1, PAGE_SIZE).unwrap(),
        PagemapRead { offset: 0, len: 16 }
    );
    assert!(matches!(
        plan_pagemap_read(8, PAGE_SIZE, PAGE_SIZE),
        Err(SoftDirtyError::NotPageAligned)
    ));
}

#[test]
fn entries_are_read_in_the_byte_order_of_the_machine() {
    let mut buf = Vec::new();
    buf.extend_from_slice(&(1u64 << 55).to_ne_bytes());
    buf.extend_from_slice(&(1u64 << 54).to_ne_bytes());
    buf.extend_from_slice(&(1u64 << 62).to_ne_bytes());
    buf.extend_from_slice(&(1u64 << 8).to_ne_bytes());
    assert_eq!(
        decode_soft_dirty_pages(&buf),
        vec![true, false, true, false]
    );
    assert!(decode_soft_dirty_pages(&[]).is_empty());
}

#[test]
fn pagemap_failures_are_told_apart() {
    let read = |failure: fn(Error) -> PagemapReadFailure| {
        get_soft_dirty_pages(0, PAGE_SIZE, PAGE_SIZE, &move |_| Err(failure(io_error())))
            .unwrap_err()
    };
    assert!(matches!(
        read(PagemapReadFailure::Open),
        SoftDirtyError::OpenFailed { path, .. } if path == PAGEMAP_PATH
    ));
    assert!(matches!(
        read(PagemapReadFailure::Seek),
        SoftDirtyError::SeekFailed { path, .. } if path == "/proc/self/pagemap"
    ));
    assert!(matches!(
        read(PagemapReadFailure::Read),
        SoftDirtyError::ReadFailed { path, .. } if path == "/proc/self/pagemap"
    ));
}

#[test]
fn test_clear_soft_dirty_opens_and_writes() {
    let kernel = Kernel::new(Tracking::Works);
    assert!(matches!(kernel.clear(), Ok(())));
    assert_eq!(*kernel.clears.borrow(), 1);
}

#[test]
fn clear_failures_are_told_apart() {
    let err = clear_soft_dirty(|_: &str, _: &[u8]| Err(ClearRefsFailure::Open(io_error())));
    assert!(matches!(
        err.unwrap_err(),
        SoftDirtyError::OpenFailed { path, .. } if path == CLEAR_REFS_PATH
    ));
    let err = clear_soft_dirty(|_: &str, _: &[u8]| Err(ClearRefsFailure::Write(io_error())));
    assert!(matches!(
        err.unwrap_err(),
        SoftDirtyError::WriteFailed { path, .. } if path == "/proc/self/clear_refs"
    ));
}

#[test]
fn test_probe_soft_dirty_support_round_trip() {
    match run_probe(&Kernel::new(Tracking::Works)).0 {
        Ok(supported) => {
            if !supported {
                println!("soft-dirty not supported on this kernel; probe correctly returned false");
            }
            assert!(supported);
        }
        Err(e) => {
            panic!("soft-dirty probe errored (degradation path): {e:?}");
        }
    }
}

#[test]
fn probe_rules_out_kernels_without_tracking() {
    for tracking in [
        Tracking::AlwaysClear,
        Tracking::AlwaysSet,
        Tracking::ClearsOnce,
        Tracking::RecordsOnce,
    ] {
        let (result, mapped) = run_probe(&Kernel::new(tracking));
        assert!(!result.unwrap());
        assert_eq!(mapped, 0);
    }
    let (result, mapped) = run_probe(&Kernel::new(Tracking::Works));
    assert!(result.unwrap());
    assert_eq!(mapped, 0);
}

#[test]
fn probe_gives_the_scratch_page_back_on_failure() {
    let (job, _) = probe_soft_dirty_support(PAGE_SIZE);
    let (job, action) = job.step(ProbeEvent::Mapped(Ok(PAGE_SIZE)));
    assert!(matches!(action, ProbeAction::ClearRefs));
    let (job, action) = job.step(ProbeEvent::Cleared(Err(SoftDirtyError::NotPageAligned)));
    assert!(matches!(
        action,
        ProbeAction::Unmap {
            addr: PAGE_SIZE,
            len: PAGE_SIZE
        }
    ));
    let (_, action) = job.step(ProbeEvent::Unmapped(Ok(())));
    assert!(matches!(
        action,
        ProbeAction::Finished(Err(SoftDirtyError::NotPageAligned))
    ));
}

#[test]
fn probe_reports_a_failed_read() {
    let (job, _) = probe_soft_dirty_support(PAGE_SIZE);
    let (job, _) = job.step(ProbeEvent::Mapped(Ok(PAGE_SIZE)));
    let (job, action) = job.step(ProbeEvent::Cleared(Ok(())));
    assert!(matches!(
        action,
        ProbeAction::ReadPages {
            host_addr: PAGE_SIZE,
            length: PAGE_SIZE
        }
    ));
    let (job, _) = job.step(ProbeEvent::PagesRead(Err(
        SoftDirtyError::GetHostAddressFailed,
    )));
    let (_, action) = job.step(ProbeEvent::Unmapped(Ok(())));
    assert!(matches!(
        action,
        ProbeAction::Finished(Err(SoftDirtyError::GetHostAddressFailed))
    ));
}

#[test]
fn probe_mapping_failures_are_told_apart() {
    let (job, action) = probe_soft_dirty_support(PAGE_SIZE);
    assert!(matches!(action, ProbeAction::MapScratch { len: PAGE_SIZE }));
    let (_, action) = job.step(ProbeEvent::Mapped(Err(io_error())));
    assert!(matches!(
        action,
        ProbeAction::Finished(Err(SoftDirtyError::ProbeMmapFailed { .. }))
    ));

    // A page that cannot be given back is an error, whatever the bits were.
    let (job, _) = probe_soft_dirty_support(PAGE_SIZE);
    let (job, _) = job.step(ProbeEvent::Mapped(Ok(PAGE_SIZE)));
    let (job, _) = job.step(ProbeEvent::Cleared(Ok(())));
    let (job, action) = job.step(ProbeEvent::PagesRead(Ok(vec![true])));
    assert!(matches!(action, ProbeAction::Unmap { .. }));
    let (_, action) = job.step(ProbeEvent::Unmapped(Err(io_error())));
    assert!(matches!(
        action,
        ProbeAction::Finished(Err(SoftDirtyError::ProbeMunmapFailed { .. }))
    ));
}

#[test]
fn test_soft_dirty_delta_round_trip() {
    let kernel = Kernel::new(Tracking::Works);
    assert!(matches!(run_probe(&kernel).0, Ok(true)));

    let num_pages = 64usize;
    let (guest_memory, _host_addr) = fixture(num_pages);
    let full_range = [MemoryRange {
        gpa: 0,
        length: (num_pages as u64) * PAGE_SIZE,
    }];
    let filter = || {
        filter_memory_ranges_by_soft_dirty(&guest_memory, &full_range, PAGE_SIZE, &|s| {
            kernel.read(s)
        })
        .unwrap()
    };

    // Window 1: pages 3 and 10.
    kernel.clear().unwrap();
    touch_page(&kernel, &guest_memory, 3);
    touch_page(&kernel, &guest_memory, 10);
    let (ranges, stats) = filter();
    assert_eq!(
        pairs(&ranges),
        vec![(3 * PAGE_SIZE, PAGE_SIZE), (10 * PAGE_SIZE, PAGE_SIZE)]
    );
    assert_eq!(stats.dirty_pages, 2);
    assert_eq!(
        stats,
        SoftDirtyStats {
            total_pages: 64,
            dirty_pages: 2,
            total_bytes: 64 * PAGE_SIZE,
            dirty_bytes: 2 * PAGE_SIZE,
        }
    );

    // Window 2: no writes, so the armed ledger must report nothing.
    kernel.clear().unwrap();
    let (ranges, stats) = filter();
    assert!(ranges.is_empty(), "empty window must produce empty delta");
    assert_eq!(stats.dirty_pages, 0);

    // Window 3: a disjoint page set; old writes must not reappear.
    kernel.clear().unwrap();
    touch_page(&kernel, &guest_memory, 40);
    touch_page(&kernel, &guest_memory, 41);
    touch_page(&kernel, &guest_memory, 50);
    let (ranges, stats) = filter();
    assert_eq!(
        pairs(&ranges),
        vec![(40 * PAGE_SIZE, 2 * PAGE_SIZE), (50 * PAGE_SIZE, PAGE_SIZE)]
    );
    assert_eq!(stats.dirty_pages, 3);

    // Window 4: overlapping writes; still exactly the current window.
    kernel.clear().unwrap();
    touch_page(&kernel, &guest_memory, 3);
    let (ranges, stats) = filter();
    assert_eq!(pairs(&ranges), vec![(3 * PAGE_SIZE, PAGE_SIZE)]);
    assert_eq!(stats.dirty_pages, 1);
}

#[test]
fn test_intersection_filter_matches_written_pages() {
    let kernel = Kernel::new(Tracking::Works);
    assert!(matches!(run_probe(&kernel).0, Ok(true)));

    let num_pages = 32usize;
    let (guest_memory, _host_addr) = fixture(num_pages);
    let full_range = [MemoryRange {
        gpa: 0,
        length: (num_pages as u64) * PAGE_SIZE,
    }];

    kernel.clear().unwrap();
    touch_page(&kernel, &guest_memory, 1);
    touch_page(&kernel, &guest_memory, 5);

    // All of the memory is private and anonymous, so the intersection is the soft-dirty window.
    let anon = |_: u64, length: u64| Ok(vec![true; (length / PAGE_SIZE) as usize]);
    match filter_memory_ranges_by_anon_and_soft_dirty(
        &guest_memory,
        &full_range,
        PAGE_SIZE,
        &anon,
        &|s| kernel.read(s),
    ) {
        Ok((ranges, stats)) => {
            assert_eq!(
                pairs(&ranges),
                vec![(PAGE_SIZE, PAGE_SIZE), (5 * PAGE_SIZE, PAGE_SIZE)]
            );
            assert_eq!(stats.dirty_pages, 2);
        }
        Err(e) => panic!("unexpected intersection error: {e:?}"),
    }
}

#[test]
fn intersection_takes_swapped_pages_and_drops_shared_ones() {
    let kernel = Kernel::new(Tracking::Works);
    let (guest_memory, host_addr) = fixture(4);
    let ranges = [MemoryRange {
        gpa: 0,
        length: 4 * PAGE_SIZE,
    }];
    kernel.clear().unwrap();
    touch_page(&kernel, &guest_memory, 0);
    touch_page(&kernel, &guest_memory, 1);
    kernel
        .swapped
        .borrow_mut()
        .insert(host_addr / PAGE_SIZE + 3);
    // Page 0 is not anonymous; page 2 is anonymous but was not written; page 3 is swapped out.
    let anon = |_: u64, _: u64| Ok(vec![false, true, true, true]);
    let (delta, stats) = filter_memory_ranges_by_anon_and_soft_dirty(
        &guest_memory,
        &ranges,
        PAGE_SIZE,
        &anon,
        &|s| kernel.read(s),
    )
    .unwrap();
    assert_eq!(
        pairs(&delta),
        vec![(PAGE_SIZE, PAGE_SIZE), (3 * PAGE_SIZE, PAGE_SIZE)]
    );
    assert_eq!(stats.dirty_bytes, 2 * PAGE_SIZE);
}

#[test]
fn host_address_depends_on_the_region() {
    let memory = GuestMemoryMmap::<()>::from_ranges(&[
        (GuestAddress(0), PAGE_SIZE as usize),
        (GuestAddress(16 * PAGE_SIZE), 2 * PAGE_SIZE as usize),
    ])
    .unwrap();
    let kernel = Kernel::new(Tracking::Works);
    touch_page(&kernel, &memory, 17);
    let ranges = [
        MemoryRange {
            gpa: 0,
            length: PAGE_SIZE,
        },
        MemoryRange {
            gpa: 16 * PAGE_SIZE,
            length: 2 * PAGE_SIZE,
        },
    ];
    let (delta, stats) =
        filter_memory_ranges_by_soft_dirty(&memory, &ranges, PAGE_SIZE, &|s| kernel.read(s))
            .unwrap();
    assert_eq!(pairs(&delta), vec![(17 * PAGE_SIZE, PAGE_SIZE)]);
    assert_eq!(stats.total_pages, 3);
}

#[test]
fn filters_fail_on_memory_that_is_not_mapped() {
    let kernel = Kernel::new(Tracking::Works);
    let (guest_memory, _) = fixture(1);
    let ranges = [
        MemoryRange {
            gpa: 0,
            length: PAGE_SIZE,
        },
        MemoryRange {
            gpa: 1 << 30,
            length: PAGE_SIZE,
        },
    ];
    assert!(matches!(
        filter_memory_ranges_by_soft_dirty(&guest_memory, &ranges, PAGE_SIZE, &|s| kernel.read(s)),
        Err(SoftDirtyError::GetHostAddressFailed)
    ));
    let anon = |_: u64, _: u64| Ok(vec![true]);
    assert!(matches!(
        filter_memory_ranges_by_anon_and_soft_dirty(
            &guest_memory,
            &ranges,
            PAGE_SIZE,
            &anon,
            &|s| kernel.read(s)
        ),
        Err(IntersectionError::Anon(
            PagemapAnonError::GetHostAddressFailed
        ))
    ));
}

#[test]
fn intersection_errors_name_the_ledger() {
    let kernel = Kernel::new(Tracking::Works);
    let (guest_memory, _) = fixture(1);
    let ranges = [MemoryRange {
        gpa: 0,
        length: PAGE_SIZE,
    }];
    let hidden = |_: u64, _: u64| Err(PagemapAnonError::NoCapSysAdmin);
    assert!(matches!(
        filter_memory_ranges_by_anon_and_soft_dirty(
            &guest_memory,
            &ranges,
            PAGE_SIZE,
            &hidden,
            &|s| kernel.read(s)
        ),
        Err(IntersectionError::Anon(PagemapAnonError::NoCapSysAdmin))
    ));
    let anon = |_: u64, _: u64| Ok(vec![true]);
    assert!(matches!(
        filter_memory_ranges_by_anon_and_soft_dirty(
            &guest_memory,
            &ranges,
            PAGE_SIZE,
            &anon,
            &|_| Err(PagemapReadFailure::Open(io_error()))
        ),
        Err(IntersectionError::SoftDirty(SoftDirtyError::OpenFailed { .. }))
    ));
}

#[test]
fn set_pages_are_merged_into_maximal_ranges() {
    let bits = [true, true, false, true, false, false, true, true, true];
    let (ranges, count) = coalesce_pages_to_ranges(0x10000, &bits, PAGE_SIZE);
    assert_eq!(
        pairs(&ranges),
        vec![
            (0x10000, 2 * PAGE_SIZE),
            (0x10000 + 3 * PAGE_SIZE, PAGE_SIZE),
            (0x10000 + 6 * PAGE_SIZE, 3 * PAGE_SIZE)
        ]
    );
    assert_eq!(count, 6);
    // The bytes of the ranges are those of the set pages.
    assert_eq!(
        ranges.iter().map(|r| r.length).sum::<u64>(),
        count * PAGE_SIZE
    );

    let (ranges, count) = coalesce_pages_to_ranges(0, &[false; 5], PAGE_SIZE);
    assert!(ranges.is_empty());
    assert_eq!(count, 0);

    // The last page of the address space.
    let top = u64::MAX - (PAGE_SIZE - 1);
    let (ranges, count) = coalesce_pages_to_ranges(top, &[true], PAGE_SIZE);
    assert_eq!(pairs(&ranges), vec![(top, PAGE_SIZE)]);
    assert_eq!(count, 1);
}

#[test]
fn delta_adds_up_over_ranges() {
    let ranges = [
        MemoryRange {
            gpa: 0,
            length: 3 * PAGE_SIZE,
        },
        MemoryRange {
            gpa: 0x100000,
            length: PAGE_SIZE + 1,
        },
    ];
    let bitmaps = vec![vec![true, false, true], vec![true, true]];
    let (delta, stats) = delta_from_bitmaps(&ranges, &bitmaps, PAGE_SIZE);
    assert_eq!(
        pairs(&delta),
        vec![
            (0, PAGE_SIZE),
            (2 * PAGE_SIZE, PAGE_SIZE),
            (0x100000, 2 * PAGE_SIZE)
        ]
    );
    assert_eq!(
        stats,
        SoftDirtyStats {
            total_pages: 5,
            dirty_pages: 4,
            total_bytes: 4 * PAGE_SIZE + 1,
            dirty_bytes: 4 * PAGE_SIZE,
        }
    );
    assert_eq!(
        delta_from_bitmaps(&[], &vec![], PAGE_SIZE).1,
        SoftDirtyStats::default()
    );
}

#[test]
fn intersection_stops_with_the_shorter_bitmap() {
    assert_eq!(
        intersect_pages(&vec![true, true, false, true], &vec![true, false, true]),
        vec![true, false, false]
    );
}

#[test]
fn a_lost_window_is_written_again() {
    let kernel = Kernel::new(Tracking::Works);
    let (guest_memory, _) = fixture(8);
    let ranges = [MemoryRange {
        gpa: 0,
        length: 8 * PAGE_SIZE,
    }];
    let window = || {
        let (ranges, _) =
            filter_memory_ranges_by_soft_dirty(&guest_memory, &ranges, PAGE_SIZE, &|s| {
                kernel.read(s)
            })
            .unwrap();
        pairs(&ranges)
    };
    let clear = |path: &str, request: &[u8]| kernel.clear_refs(path, request);
    let mut acc = SoftDirtyAccounting::default();

    // The first snapshot arms and writes a baseline.
    assert_eq!(acc.arm(|| Ok(true), clear).unwrap(), ArmOutcome::Armed);
    acc.ack_persisted(clear).unwrap();

    // The second writes what was written since.
    touch_page(&kernel, &guest_memory, 2);
    assert_eq!(
        acc.arm(|| Ok(true), clear).unwrap(),
        ArmOutcome::AlreadyArmed
    );
    assert_eq!(window(), vec![(2 * PAGE_SIZE, PAGE_SIZE)]);

    // It is not persisted, so the window is not trusted and the next snapshot is a baseline again.
    acc.disarm();
    assert_eq!(acc.arm(|| Ok(true), clear).unwrap(), ArmOutcome::Armed);
    acc.ack_persisted(clear).unwrap();
    assert!(window().is_empty());
}

#[test]
fn a_part_of_a_page_is_written_as_a_page() {
    let ranges = [MemoryRange { gpa: 0, length: 1 }];
    let (delta, stats) = delta_from_bitmaps(&ranges, &vec![vec![true]], PAGE_SIZE);
    assert_eq!(pairs(&delta), vec![(0, PAGE_SIZE)]);
    assert_eq!(stats.total_bytes, 1);
    assert_eq!(stats.dirty_bytes, PAGE_SIZE);
    assert_eq!((stats.dirty_pages, stats.total_pages), (1, 1));
}

#[test]
fn a_full_snapshot_starts_a_window() {
    let kernel = Kernel::new(Tracking::Works);
    let (guest_memory, _) = fixture(8);
    let ranges = [MemoryRange {
        gpa: 0,
        length: 8 * PAGE_SIZE,
    }];
    let window = || {
        let (ranges, _) =
            filter_memory_ranges_by_soft_dirty(&guest_memory, &ranges, PAGE_SIZE, &|s| {
                kernel.read(s)
            })
            .unwrap();
        pairs(&ranges)
    };
    let clear = |path: &str, request: &[u8]| kernel.clear_refs(path, request);
    let mut acc = SoftDirtyAccounting::default();

    // A guest that was never snapshotted: the ledger is armed.
    touch_page(&kernel, &guest_memory, 0);
    assert!(acc.start_window(|| Ok(true), clear));
    assert_eq!(acc.mode(), AccountingMode::SoftDirty);
    assert!(acc.is_armed());
    assert!(window().is_empty());

    // A window that is open is rolled over, without another probe: what came before is in the image,
    // and the next incremental snapshot writes just what came after.
    touch_page(&kernel, &guest_memory, 1);
    assert!(acc.start_window(|| panic!("must not probe"), clear));
    touch_page(&kernel, &guest_memory, 2);
    assert_eq!(
        acc.arm(|| Ok(true), clear).unwrap(),
        ArmOutcome::AlreadyArmed
    );
    assert_eq!(window(), vec![(2 * PAGE_SIZE, PAGE_SIZE)]);

    // A window that was lost is started again too.
    acc.disarm();
    assert!(acc.start_window(|| panic!("must not probe"), clear));
    assert!(acc.is_armed());

    // Where that fails the window is closed, and the next incremental snapshot is a baseline.
    assert!(!acc.start_window(
        || Ok(true),
        |_: &str, _: &[u8]| Err(ClearRefsFailure::Open(io_error()))
    ));
    assert!(!acc.is_armed());
    assert_eq!(acc.arm(|| Ok(true), clear).unwrap(), ArmOutcome::Armed);
}

#[test]
fn a_full_snapshot_opens_no_window_without_tracking() {
    let kernel = Kernel::new(Tracking::AlwaysClear);
    let clear = |path: &str, request: &[u8]| kernel.clear_refs(path, request);
    let mut acc = SoftDirtyAccounting::default();
    assert!(!acc.start_window(|| Ok(false), clear));
    assert_eq!(acc.mode(), AccountingMode::AnonOnly);
    assert!(!acc.is_armed());

    // Nor does it bring disabled accounting back.
    acc.note_ledger_unusable();
    assert!(!acc.start_window(|| Ok(true), clear));
    assert_eq!(acc.mode(), AccountingMode::Disabled);

    // An arming write that fails leaves the ledger unprobed.
    let mut acc = SoftDirtyAccounting::default();
    assert!(!acc.start_window(
        || Ok(true),
        |_: &str, _: &[u8]| Err(ClearRefsFailure::Write(io_error()))
    ));
    assert_eq!(acc.mode(), AccountingMode::Unprobed);
    assert!(!acc.is_armed());
}

#[test]
fn accounting_is_unprobed_until_an_arming_reports() {
    let kernel = Kernel::new(Tracking::Works);
    let mut acc = SoftDirtyAccounting::default();
    acc.disarm();
    acc.note_ledger_unusable();
    acc.ack_persisted(|path: &str, request: &[u8]| kernel.clear_refs(path, request))
        .unwrap();
    acc.arm_with(|| Ok(true), || Err(SoftDirtyError::NotPageAligned))
        .unwrap_err();
    assert_eq!(acc.mode(), AccountingMode::Unprobed);
    acc.arm_with(|| Ok(true), || Ok(())).unwrap();
    acc.disarm();
    acc.arm_with(|| Ok(true), || Err(SoftDirtyError::NotPageAligned))
        .unwrap_err();
    assert_ne!(acc.mode(), AccountingMode::Unprobed);
}

#[test]
fn alignment_is_looked_at_before_the_bounds() {
    let unread = |_: PagemapRead| -> Result<Vec<u8>, PagemapReadFailure> {
        panic!("must not be read")
    };
    assert!(matches!(
        get_soft_dirty_pages(u64::MAX, u64::MAX, 2, &unread),
        Err(SoftDirtyError::NotPageAligned)
    ));
}
