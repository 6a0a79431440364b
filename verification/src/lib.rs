//! Verified core of a manager for quickemu virtual machines: settings, VM
//! models, binary discovery, quickget output, VM process detection and
//! launch commands, console sessions, edits of VM configuration files, the
//! VNC wire protocol, and the decisions of the desktop and web front ends.
use vstd::prelude::*;

pub mod card_state;
pub mod environment;
pub mod models;
pub mod order;
pub mod paths;
pub mod services;
pub mod text;
pub mod tokens;
pub mod ui_style;
pub mod vm_naming;
pub mod web;

verus! {
} // verus!
