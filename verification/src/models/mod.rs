//! Settings and VM records.
use vstd::prelude::*;

pub mod config;
pub mod vm;

verus! {
} // verus!
