//! What the web front end and its server compute.
use vstd::prelude::*;

pub mod api;
pub mod config_file;
pub mod console_view;
pub mod create_form;
pub mod creation;
pub mod edit_form;
pub mod home;
pub mod keymap;
pub mod models;
pub mod os_picker;
pub mod server;
pub mod settings_form;
pub mod surface;
pub mod vm_card;
pub mod vnc_protocol;
pub mod vnc_view;

verus! {
} // verus!
