//! State of the virtual machine.

pub mod memory;
pub mod pagemap_anon;
pub mod soft_dirty;
