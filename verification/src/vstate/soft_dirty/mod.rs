//! Soft-dirty incremental snapshot support.
//!
//! Tracks which guest memory pages have been written since the last snapshot, by the per-PTE
//! soft-dirty bit of the kernel (bit 55 in `/proc/self/pagemap`).
//!
//! 1. Arm: writing "4" to `/proc/self/clear_refs` clears the bit on every PTE of the process.
//! 2. The guest runs: a write into guest memory sets the bit again, a read does not.
//! 3. Snapshot: the set bits are the delta window; the ledger is armed again only after the delta
//!    has been durably written.

pub mod accounting;
pub mod error;
pub mod filter;
pub mod pages;
pub mod probe;
pub mod window;

pub use accounting::{AccountingMode, ArmOutcome, SoftDirtyAccounting};
pub use error::{
    ClearRefsFailure, IntersectionError, PagemapReadFailure, SoftDirtyError,
};
pub use probe::{probe_soft_dirty_support, ProbeAction, ProbeEvent, ProbeJob, ProbePhase, PROBE_BYTE};
pub use filter::{
    delta_from_bitmaps, filter_memory_ranges_by_anon_and_soft_dirty,
    filter_memory_ranges_by_soft_dirty, intersect_pages, SoftDirtyStats,
};
pub use pages::{
    clear_soft_dirty, decode_soft_dirty_pages, get_soft_dirty_pages, plan_pagemap_read,
    soft_dirty_entry_reports_dirty, PagemapRead, CLEAR_REFS_PATH, CLEAR_REFS_SOFT_DIRTY,
    PAGEMAP_ENTRY_SIZE, PAGEMAP_PATH, PAGEMAP_SOFT_DIRTY_BIT, PAGEMAP_SWAPPED_BIT,
};
