//! Snapshot support of the virtual machine monitor: the soft-dirty ledger that decides which guest
//! pages an incremental snapshot writes, and the rules by which a microVM is saved and restored.
//!
//! The crate decides; it performs no input or output. What has to be read or written is named by
//! an action or asked of a closure, and the outcome is handed back.

pub mod outside;
pub mod persist;
pub mod vmm_config;
pub mod vstate;
