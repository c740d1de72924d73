//! Errors of the soft-dirty ledger.

use crate::vstate::pagemap_anon::PagemapAnonError;
use vstd::prelude::*;

verus! {

/// Errors related to soft-dirty operations.
#[derive(Debug)]
pub enum SoftDirtyError {
    /// Failed to open a file of the proc file system.
    OpenFailed {
        /// Path that failed to open.
        path: String,
        /// Underlying IO error.
        source: std::io::Error,
    },
    /// Failed to read a file of the proc file system.
    ReadFailed {
        /// Path that failed to read.
        path: String,
        /// Underlying IO error.
        source: std::io::Error,
    },
    /// Failed to write a file of the proc file system.
    WriteFailed {
        /// Path that failed to be written.
        path: String,
        /// Underlying IO error.
        source: std::io::Error,
    },
    /// Failed to seek in a file of the proc file system.
    SeekFailed {
        /// Path that failed to seek.
        path: String,
        /// Underlying IO error.
        source: std::io::Error,
    },
    /// Failed to get the host address of a guest memory region.
    GetHostAddressFailed,
    /// Memory region not aligned to page boundary.
    NotPageAligned,
    /// mmap of the probe scratch page failed.
    ProbeMmapFailed {
        /// Underlying IO error.
        source: std::io::Error,
    },
    /// munmap of the probe scratch page failed.
    ProbeMunmapFailed {
        /// Underlying IO error.
        source: std::io::Error,
    },
}

/// Errors of the intersection filter: either ledger can fail.
#[derive(Debug)]
pub enum IntersectionError {
    /// The pagemap-anon ledger failed.
    Anon(PagemapAnonError),
    /// The soft-dirty ledger failed.
    SoftDirty(SoftDirtyError),
}

/// Which operation on the pagemap file failed.
#[derive(Debug)]
pub enum PagemapReadFailure {
    /// The file could not be opened.
    Open(std::io::Error),
    /// The file could not be positioned.
    Seek(std::io::Error),
    /// The entries could not be read in full.
    Read(std::io::Error),
}

/// Which operation on the clear_refs file failed.
#[derive(Debug)]
pub enum ClearRefsFailure {
    /// The file could not be opened.
    Open(std::io::Error),
    /// The request could not be written in full.
    Write(std::io::Error),
}

} // verus!
