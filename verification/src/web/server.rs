//! Decisions of the web server's functions: which directories are
//! scanned, what status a scan reports, and when a console may be opened.
use vstd::prelude::*;

use crate::models::vm::{DisplayProtocol, VMStatus, VM};
use crate::paths::{join, join_path};
use crate::services::spice_proxy::{status_text, ConnectionStatus};

verus! {

/// The directories scanned for VMs when none are known yet: `VMs` in the
/// home directory, `quickemu` in the user's directory under `/home`, and
/// `/opt/quickemu/vms` (an unset variable counts as empty).
pub open spec fn scanned_directories(home: Seq<char>, user: Seq<char>) -> Seq<Seq<char>> {
    seq![
        join_path(home, "VMs"@),
        join_path(join_path("/home"@, user), "quickemu"@),
        "/opt/quickemu/vms"@,
    ]
}

/// The directories scanned for VMs for the values of `HOME` and `USER`.
pub fn directories_to_scan(home: &str, user: &str) -> (r: Vec<String>)
    ensures
        r@.len() == 3,
        r@[0]@ == scanned_directories(home@, user@)[0],
        r@[1]@ == scanned_directories(home@, user@)[1],
        r@[2]@ == scanned_directories(home@, user@)[2],
{
    let mut r: Vec<String> = Vec::new();
    r.push(join(home, "VMs"));
    let user_dir = join("/home", user);
    r.push(join(user_dir.as_str(), "quickemu"));
    r.push("/opt/quickemu/vms".to_owned());
    r
}

/// The status a refresh records for a VM: running (its process id
/// unknown, so 0) or stopped.
pub fn runtime_status(running: bool) -> (r: VMStatus)
    ensures
        running ==> r == (VMStatus::Running { pid: 0 }),
        !running ==> r == VMStatus::Stopped,
{
    if running {
        VMStatus::Running { pid: 0 }
    } else {
        VMStatus::Stopped
    }
}

/// Whether a console may be opened for a VM: it must be known, running and
/// offer console access (a SPICE display with a port found open).
pub open spec fn console_refusal(vm: Option<VM>, spice_port: Option<u16>) -> Option<Seq<char>> {
    match vm {
        None => Some("VM not found"@),
        Some(v) => if !(v.status is Running) {
            Some("VM is not running"@)
        } else if !(v.config.display is Spice && spice_port.is_some()) {
            Some("VM does not support console access"@)
        } else {
            None
        },
    }
}

/// The check before a console session is opened for a VM.
pub fn console_precheck(vm: Option<&VM>, spice_port: Option<u16>) -> (r: Result<(), String>)
    ensures
        match console_refusal(
            match vm {
                Some(v) => Some(*v),
                None => None,
            },
            spice_port,
        ) {
            None => r.is_ok(),
            Some(m) => r matches Err(e) && e@ == m,
        },
{
    match vm {
        None => Err("VM not found".to_owned()),
        Some(v) => {
            if !v.is_running() {
                Err("VM is not running".to_owned())
            } else {
                let spice = match v.config.display {
                    DisplayProtocol::Spice { .. } => true,
                    _ => false,
                };
                if !(spice && spice_port.is_some()) {
                    Err("VM does not support console access".to_owned())
                } else {
                    Ok(())
                }
            }
        },
    }
}

/// The text the server reports for a console session's status, if the
/// session exists.
pub fn console_status_report(status: Option<ConnectionStatus>) -> (r: Option<String>)
    ensures
        match status {
            Some(s) => r matches Some(t) && t@ == status_text(s),
            None => r.is_none(),
        },
{
    match status {
        Some(s) => Some(s.text()),
        None => None,
    }
}

} // verus!
