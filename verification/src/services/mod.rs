//! The services of the manager.
use vstd::prelude::*;

pub mod binary_discovery;
pub mod process_registry;
pub mod quickget;
pub mod release_archive;
pub mod session_table;
pub mod spice_proxy;
pub mod vm_manager;
pub mod vnc_proxy;

verus! {
} // verus!
