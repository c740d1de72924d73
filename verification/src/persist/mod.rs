//! Saving and restoring a microVM.

pub mod checkpoint;
pub mod create;
pub mod error;
pub mod memory_file;
pub mod overrides;
pub mod restore;
pub mod sanity;
pub mod state;
pub mod uffd;
pub mod version;
