//! The user's standard directories, as the `dirs` crate reports them.
use vstd::prelude::*;

verus! {

/// `dirs::home_dir`: the user's home directory, read from the environment
/// and the password database. What it yields depends on the machine, so
/// nothing is stated of it.
#[verifier::external_body]
pub fn home_dir() -> (r: Option<String>) {
    match dirs::home_dir() {
        Some(p) => Some(p.to_string_lossy().into_owned()),
        None => None,
    }
}

/// `dirs::data_local_dir`: the user's local data directory (on Linux
/// `$XDG_DATA_HOME` or `~/.local/share`). What it yields depends on the
/// machine, so nothing is stated of it.
#[verifier::external_body]
pub fn data_local_dir() -> (r: Option<String>) {
    match dirs::data_local_dir() {
        Some(p) => Some(p.to_string_lossy().into_owned()),
        None => None,
    }
}

/// `dirs::cache_dir`: the user's cache directory (on Linux
/// `$XDG_CACHE_HOME` or `~/.cache`). What it yields depends on the
/// machine, so nothing is stated of it.
#[verifier::external_body]
pub fn cache_dir() -> (r: Option<String>) {
    match dirs::cache_dir() {
        Some(p) => Some(p.to_string_lossy().into_owned()),
        None => None,
    }
}

/// `dirs::config_dir`: the user's configuration directory (on Linux
/// `$XDG_CONFIG_HOME` or `~/.config`). What it yields depends on the
/// machine, so nothing is stated of it.
#[verifier::external_body]
pub fn config_dir() -> (r: Option<String>) {
    match dirs::config_dir() {
        Some(p) => Some(p.to_string_lossy().into_owned()),
        None => None,
    }
}

} // verus!
