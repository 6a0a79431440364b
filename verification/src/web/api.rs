//! The HTTP API of the manager's server as its client sees it: the VM
//! records, the response envelope, the request URLs and how a response is
//! read.
use vstd::prelude::*;

use crate::text::{concat, push_str};

verus! {

#[derive(Debug, Clone, PartialEq)]
pub struct VM {
    pub id: String,
    pub name: String,
    pub status: VMStatus,
    pub os: String,
    pub version: String,
    pub cpu_cores: u32,
    pub ram_mb: u32,
}

#[derive(Debug, Clone, Copy, PartialEq, Eq)]
pub enum VMStatus {
    Running,
    Stopped,
    Starting,
    Stopping,
}

/// How a status is written out.
pub open spec fn status_text(s: VMStatus) -> Seq<char> {
    match s {
        VMStatus::Running => "Running"@,
        VMStatus::Stopped => "Stopped"@,
        VMStatus::Starting => "Starting"@,
        VMStatus::Stopping => "Stopping"@,
    }
}

impl VMStatus {
    /// The status written out, as its `Display` shows it.
    pub fn text(&self) -> (r: String)
        ensures
            r@ == status_text(*self),
    {
        match self {
            VMStatus::Running => "Running".to_owned(),
            VMStatus::Stopped => "Stopped".to_owned(),
            VMStatus::Starting => "Starting".to_owned(),
            VMStatus::Stopping => "Stopping".to_owned(),
        }
    }
}

/// The envelope of every answer of the server.
pub struct ApiResponse<T> {
    pub success: bool,
    pub data: Option<T>,
    pub error: Option<String>,
}

/// The error a failed response carries, or `fallback` when it names none.
pub open spec fn response_error<T>(r: ApiResponse<T>, fallback: Seq<char>) -> Seq<char> {
    match r.error {
        Some(e) => e@,
        None => fallback,
    }
}

impl<T> ApiResponse<T> {
    /// The data of a successful response, or the error of a failed one
    /// (`fallback` when the server named none).
    pub fn into_result(self, fallback: &str) -> (r: Result<Option<T>, String>)
        ensures
            self.success ==> r == Ok::<Option<T>, String>(self.data),
            !self.success ==> (r matches Err(e) && e@ == response_error(self, fallback@)),
    {
        if self.success {
            Ok(self.data)
        } else {
            match self.error {
                Some(e) => Err(e),
                None => Err(fallback.to_owned()),
            }
        }
    }
}

/// The VMs of a list response: its data, or none when it carries none.
pub fn list_vms_result(response: ApiResponse<Vec<VM>>) -> (r: Result<Vec<VM>, String>)
    ensures
        response.success ==> (r matches Ok(v) && v@ == (match response.data {
            Some(d) => d@,
            None => Seq::empty(),
        })),
        !response.success ==> (r matches Err(e) && e@ == response_error(
            response,
            "Unknown error"@,
        )),
{
    match response.into_result("Unknown error") {
        Ok(Some(vms)) => Ok(vms),
        Ok(None) => Ok(Vec::new()),
        Err(e) => Err(e),
    }
}

/// The outcome of a start request.
pub fn start_vm_result(response: ApiResponse<()>) -> (r: Result<(), String>)
    ensures
        r.is_ok() == response.success,
        r matches Err(e) ==> e@ == response_error(response, "Failed to start VM"@),
{
    match response.into_result("Failed to start VM") {
        Ok(_) => Ok(()),
        Err(e) => Err(e),
    }
}

/// The outcome of a stop request.
pub fn stop_vm_result(response: ApiResponse<()>) -> (r: Result<(), String>)
    ensures
        r.is_ok() == response.success,
        r matches Err(e) ==> e@ == response_error(response, "Failed to stop VM"@),
{
    match response.into_result("Failed to stop VM") {
        Ok(_) => Ok(()),
        Err(e) => Err(e),
    }
}

/// The status of a status response; a success without data counts as
/// stopped.
pub fn vm_status_result(response: ApiResponse<VMStatus>) -> (r: Result<VMStatus, String>)
    ensures
        response.success ==> r == Ok::<VMStatus, String>(match response.data {
            Some(s) => s,
            None => VMStatus::Stopped,
        }),
        !response.success ==> (r matches Err(e) && e@ == response_error(
            response,
            "Failed to get VM status"@,
        )),
{
    match response.into_result("Failed to get VM status") {
        Ok(Some(s)) => Ok(s),
        Ok(None) => Ok(VMStatus::Stopped),
        Err(e) => Err(e),
    }
}

/// The address the client talks to unless told otherwise.
pub fn default_base_url() -> (r: String)
    ensures
        r@ == "http://127.0.0.1:3000"@,
{
    "http://127.0.0.1:3000".to_owned()
}

/// `<base>/api/vms`.
pub fn vms_url(base: &str) -> (r: String)
    ensures
        r@ == base@ + "/api/vms"@,
{
    concat(base, "/api/vms")
}

/// `<base>/api/vms/<id>/<action>`.
pub fn vm_action_url(base: &str, vm_id: &str, action: &str) -> (r: String)
    ensures
        r@ == base@ + "/api/vms/"@ + vm_id@ + "/"@ + action@,
{
    let mut r = concat(base, "/api/vms/");
    push_str(&mut r, vm_id);
    push_str(&mut r, "/");
    push_str(&mut r, action);
    r
}

} // verus!
