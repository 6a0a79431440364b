//! Starting, stopping and creating VMs: the decisions around the processes
//! that `quickemu` and `quickget` run.
use vstd::prelude::*;

use crate::models::vm::{DisplayProtocol, VMStatus, VMTemplate, VM};
use crate::paths::{join, join_path};
use crate::services::binary_discovery::{BinaryDiscovery, DiscoveryError, is_exec};
use crate::text::{
    chars_of, concat, contains, decimal, join as join_seqs, join_strings, lines, opt_view,
    parse_u32, parse_u32_range, push_decimal, push_signed_decimal, push_str, signed_decimal,
    split_lines, split_words, starts_with, str_contains, str_starts_with, views, words,
};

verus! {

/// Why a VM operation failed.
#[derive(Debug, Clone, PartialEq)]
pub enum VmError {
    AlreadyRunning,
    InvalidConfigPath,
    ProcessNotFound,
    QuickgetUnavailable,
    /// `quickget` did not produce the configuration; the output it printed.
    CreationFailed(String),
    DisplayNotSupported,
    ProxyNotInitialized,
    /// The VM (by id) has no SPICE server listening.
    NoSpiceServer(String),
}

pub open spec fn vm_error_message(e: VmError) -> Seq<char> {
    match e {
        VmError::AlreadyRunning => "VM is already running"@,
        VmError::InvalidConfigPath => "Invalid config path"@,
        VmError::ProcessNotFound => "VM process not found"@,
        VmError::QuickgetUnavailable => "quickget not available"@,
        VmError::CreationFailed(out) => "VM creation failed: "@ + out@,
        VmError::DisplayNotSupported => "Display protocol not supported for remote viewing"@,
        VmError::ProxyNotInitialized => "SPICE proxy not initialized"@,
        VmError::NoSpiceServer(id) => "VM '"@ + id@ + "' does not have an active SPICE server"@,
    }
}

impl VmError {
    /// The text of the error, as the manager reports it.
    pub fn message(&self) -> (r: String)
        ensures
            r@ == vm_error_message(*self),
    {
        match self {
            VmError::AlreadyRunning => "VM is already running".to_owned(),
            VmError::InvalidConfigPath => "Invalid config path".to_owned(),
            VmError::ProcessNotFound => "VM process not found".to_owned(),
            VmError::QuickgetUnavailable => "quickget not available".to_owned(),
            VmError::CreationFailed(out) => concat("VM creation failed: ", out.as_str()),
            VmError::DisplayNotSupported => "Display protocol not supported for remote viewing".to_owned(),
            VmError::ProxyNotInitialized => "SPICE proxy not initialized".to_owned(),
            VmError::NoSpiceServer(id) => {
                let mut r = String::new();
                push_str(&mut r, "VM '");
                push_str(&mut r, id.as_str());
                push_str(&mut r, "' does not have an active SPICE server");
                r
            },
        }
    }
}

// ---------------------------------------------------------------------------
// Finding the process of a VM
// ---------------------------------------------------------------------------

/// A running process: its id and command line.
#[derive(Debug, Clone)]
pub struct ProcessInfo {
    pub pid: u32,
    pub cmd: Vec<String>,
}

/// Some argument of the command line names the VM (its id, or its id with
/// `.conf` appended).
pub open spec fn mentions_vm(cmd: Seq<Seq<char>>, vm_id: Seq<char>) -> bool {
    exists|k: int|
        0 <= k < cmd.len() && (contains(#[trigger] cmd[k], vm_id) || contains(
            cmd[k],
            vm_id + ".conf"@,
        ))
}

/// A QEMU process running the VM.
pub open spec fn is_qemu_of(cmd: Seq<Seq<char>>, vm_id: Seq<char>) -> bool {
    cmd.len() > 0 && contains(cmd[0], "qemu-system"@) && mentions_vm(cmd, vm_id)
}

/// A quickemu wrapper process started for the VM.
pub open spec fn is_quickemu_of(cmd: Seq<Seq<char>>, vm_id: Seq<char>) -> bool {
    cmd.len() > 0 && contains(cmd[0], "quickemu"@) && exists|k: int|
        0 <= k < cmd.len() && contains(#[trigger] cmd[k], vm_id)
}

/// The pid a line of `ps aux` gives for the VM's QEMU process: the second
/// field of a line that names both `qemu-system` and the VM.
pub open spec fn ps_line_pid(line: Seq<char>, vm_id: Seq<char>) -> Option<u32> {
    if contains(line, "qemu-system"@) && contains(line, vm_id) && words(line).len() > 1 {
        parse_u32(words(line)[1])
    } else {
        None
    }
}

/// The pids the lines of `ps aux` give for the VM, in order.
pub open spec fn ps_pids(ls: Seq<Seq<char>>, vm_id: Seq<char>) -> Seq<u32>
    decreases ls.len(),
{
    if ls.len() == 0 {
        Seq::empty()
    } else {
        let sub = ps_pids(ls.drop_last(), vm_id);
        match ps_line_pid(ls.last(), vm_id) {
            Some(p) => sub.push(p),
            None => sub,
        }
    }
}

pub open spec fn cmd_view(p: ProcessInfo) -> Seq<Seq<char>> {
    views(p.cmd@)
}

/// The first process, from `k` on, that is the VM's QEMU process or its
/// quickemu wrapper.
pub open spec fn first_vm_process(ps: Seq<ProcessInfo>, vm_id: Seq<char>, k: int, wrappers: bool) -> Option<u32>
    decreases ps.len() - k,
{
    if k < 0 || k >= ps.len() {
        None
    } else if is_qemu_of(cmd_view(ps[k]), vm_id) || (wrappers && is_quickemu_of(cmd_view(ps[k]), vm_id)) {
        Some(ps[k].pid)
    } else {
        first_vm_process(ps, vm_id, k + 1, wrappers)
    }
}

/// The status the process table and `ps aux` output (when it could be
/// read) give a VM.
pub open spec fn observed_status(ps: Seq<ProcessInfo>, ps_output: Option<Seq<char>>, vm_id: Seq<char>) -> Option<u32> {
    match first_vm_process(ps, vm_id, 0, true) {
        Some(pid) => Some(pid),
        None => match ps_output {
            Some(out) => {
                let pids = ps_pids(lines(out), vm_id);
                if pids.len() > 0 {
                    Some(pids[0])
                } else {
                    None
                }
            },
            None => None,
        },
    }
}

/// Whether some argument of `cmd` names the VM.
fn mentions_vm_exec(cmd: &Vec<String>, vm_id: &str) -> (b: bool)
    ensures
        b == mentions_vm(views(cmd@), vm_id@),
{
    let conf = concat(vm_id, ".conf");
    let mut k: usize = 0;
    while k < cmd.len()
        invariant
            k <= cmd.len(),
            conf@ == vm_id@ + ".conf"@,
            forall|j: int|
                0 <= j < k ==> !(contains(#[trigger] views(cmd@)[j], vm_id@) || contains(
                    views(cmd@)[j],
                    vm_id@ + ".conf"@,
                )),
        decreases cmd.len() - k,
    {
        let a = cmd[k].as_str();
        if str_contains(a, vm_id) || str_contains(a, conf.as_str()) {
            assert(views(cmd@)[k as int] == cmd@[k as int]@);
            return true;
        }
        k = k + 1;
    }
    false
}

fn any_arg_contains(cmd: &Vec<String>, needle: &str) -> (b: bool)
    ensures
        b == exists|k: int| 0 <= k < cmd@.len() && contains(#[trigger] views(cmd@)[k], needle@),
{
    let mut k: usize = 0;
    while k < cmd.len()
        invariant
            k <= cmd.len(),
            forall|j: int| 0 <= j < k ==> !contains(#[trigger] views(cmd@)[j], needle@),
        decreases cmd.len() - k,
    {
        if str_contains(cmd[k].as_str(), needle) {
            assert(views(cmd@)[k as int] == cmd@[k as int]@);
            return true;
        }
        k = k + 1;
    }
    false
}

/// Whether the command line is the VM's QEMU process.
pub fn is_vm_qemu_process(cmd: &Vec<String>, vm_id: &str) -> (b: bool)
    ensures
        b == is_qemu_of(views(cmd@), vm_id@),
{
    cmd.len() > 0 && str_contains(cmd[0].as_str(), "qemu-system") && mentions_vm_exec(cmd, vm_id)
}

/// Whether the command line is a quickemu wrapper started for the VM.
pub fn is_vm_quickemu_process(cmd: &Vec<String>, vm_id: &str) -> (b: bool)
    ensures
        b == is_quickemu_of(views(cmd@), vm_id@),
{
    cmd.len() > 0 && str_contains(cmd[0].as_str(), "quickemu") && any_arg_contains(cmd, vm_id)
}

/// The first process of the table running the VM (with `wrappers`, a
/// quickemu wrapper counts too).
pub fn find_vm_process(procs: &Vec<ProcessInfo>, vm_id: &str, wrappers: bool) -> (r: Option<u32>)
    ensures
        r == first_vm_process(procs@, vm_id@, 0, wrappers),
{
    let mut k: usize = 0;
    while k < procs.len()
        invariant
            k <= procs.len(),
            first_vm_process(procs@, vm_id@, 0, wrappers) == first_vm_process(
                procs@,
                vm_id@,
                k as int,
                wrappers,
            ),
        decreases procs.len() - k,
    {
        let p = &procs[k];
        if is_vm_qemu_process(&p.cmd, vm_id) || (wrappers && is_vm_quickemu_process(&p.cmd, vm_id)) {
            return Some(p.pid);
        }
        k = k + 1;
    }
    None
}

/// The pid a `ps aux` line gives for the VM.
pub fn ps_line_vm_pid(line: &str, vm_id: &str) -> (r: Option<u32>)
    ensures
        r == ps_line_pid(line@, vm_id@),
{
    if !(str_contains(line, "qemu-system") && str_contains(line, vm_id)) {
        return None;
    }
    let v = chars_of(line);
    let ws = split_words(&v);
    if ws.len() > 1 {
        let f = chars_of(ws[1].as_str());
        assert(f@.subrange(0, f@.len() as int) == f@);
        parse_u32_range(&f, 0, f.len())
    } else {
        None
    }
}

/// The pids `ps aux` output gives for the VM, in the order of its lines.
pub fn ps_vm_pids(ps_output: &str, vm_id: &str) -> (r: Vec<u32>)
    ensures
        r@ == ps_pids(lines(ps_output@), vm_id@),
{
    let v = chars_of(ps_output);
    let ls = split_lines(&v);
    let ghost lv = views(ls@);
    let mut r: Vec<u32> = Vec::new();
    let mut i: usize = 0;
    while i < ls.len()
        invariant
            i <= ls.len(),
            lv == views(ls@),
            lv == lines(ps_output@),
            r@ == ps_pids(lv.take(i as int), vm_id@),
        decreases ls.len() - i,
    {
        proof {
            let t = lv.take(i + 1);
            assert(t.drop_last() == lv.take(i as int));
            assert(t.last() == ls@[i as int]@);
        }
        match ps_line_vm_pid(ls[i].as_str(), vm_id) {
            Some(p) => r.push(p),
            None => {},
        }
        i = i + 1;
    }
    assert(lv.take(ls.len() as int) == lv);
    r
}

/// The status of a VM from the process table and, when it could be read,
/// the output of `ps aux`: running with the pid of the first matching
/// process, else stopped.
pub fn vm_status_from(procs: &Vec<ProcessInfo>, ps_output: Option<&str>, vm_id: &str) -> (r: VMStatus)
    ensures
        match observed_status(procs@, match ps_output {
            Some(s) => Some(s@),
            None => None,
        }, vm_id@) {
            Some(pid) => r == VMStatus::Running { pid },
            None => r == VMStatus::Stopped,
        },
{
    match find_vm_process(procs, vm_id, true) {
        Some(pid) => VMStatus::Running { pid },
        None => match ps_output {
            Some(out) => {
                let pids = ps_vm_pids(out, vm_id);
                if pids.len() > 0 {
                    VMStatus::Running { pid: pids[0] }
                } else {
                    VMStatus::Stopped
                }
            },
            None => VMStatus::Stopped,
        },
    }
}

/// How to stop a VM.
#[derive(Debug, Clone, PartialEq)]
pub enum StopPlan {
    /// Kill this process of the table.
    KillProcess(u32),
    /// Run `kill` on these pids from `ps aux`, in order, until one run succeeds.
    KillPids(Vec<u32>),
}

/// How to stop a VM: its QEMU process from the table, else the pids `ps aux`
/// gives; an error when there is none.
pub fn plan_stop(procs: &Vec<ProcessInfo>, ps_output: Option<&str>, vm_id: &str) -> (r: Result<StopPlan, VmError>)
    ensures
        match first_vm_process(procs@, vm_id@, 0, false) {
            Some(pid) => r == Ok::<StopPlan, VmError>(StopPlan::KillProcess(pid)),
            None => match ps_output {
                Some(out) => if ps_pids(lines(out@), vm_id@).len() > 0 {
                    r matches Ok(StopPlan::KillPids(v)) && v@ == ps_pids(lines(out@), vm_id@)
                } else {
                    r == Err::<StopPlan, VmError>(VmError::ProcessNotFound)
                },
                None => r == Err::<StopPlan, VmError>(VmError::ProcessNotFound),
            },
        },
{
    match find_vm_process(procs, vm_id, false) {
        Some(pid) => Ok(StopPlan::KillProcess(pid)),
        None => match ps_output {
            Some(out) => {
                let pids = ps_vm_pids(out, vm_id);
                if pids.len() > 0 {
                    Ok(StopPlan::KillPids(pids))
                } else {
                    Err(VmError::ProcessNotFound)
                }
            },
            None => Err(VmError::ProcessNotFound),
        },
    }
}

// ---------------------------------------------------------------------------
// Paths
// ---------------------------------------------------------------------------

/// `Path::parent` of a path string (the path without its final component;
/// `None` for a root or an empty path).
pub uninterp spec fn path_parent(p: Seq<char>) -> Option<Seq<char>>;

/// `std::path::Path::parent`, its result converted to an owned string.
#[verifier::external_body]
fn parent_of(p: &str) -> (r: Option<String>)
    ensures
        opt_view(r) == path_parent(p@),
{
    match std::path::Path::new(p).parent() {
        Some(q) => Some(q.to_string_lossy().into_owned()),
        None => None,
    }
}

// ---------------------------------------------------------------------------
// The manager
// ---------------------------------------------------------------------------

/// A program run with arguments in a working directory.
#[derive(Debug, Clone, PartialEq)]
pub struct LaunchCommand {
    pub program: String,
    pub args: Vec<String>,
    pub current_dir: String,
}

/// Runs quickemu and quickget for the VMs.
#[derive(Debug, Clone)]
pub struct VMManager {
    quickemu_path: String,
    quickget_path: Option<String>,
}

/// The configuration file quickget writes for a template.
pub open spec fn template_config_name(os: Seq<char>, version: Seq<char>) -> Seq<char> {
    os + "-"@ + version + ".conf"@
}

/// The arguments of quickget for a template: OS, release and, when given,
/// edition.
pub open spec fn quickget_arguments(t: VMTemplate) -> Seq<Seq<char>> {
    match t.edition {
        Some(e) => seq![t.os@, t.version@, e@],
        None => seq![t.os@, t.version@],
    }
}

/// The spice client URL or vncviewer address for a display.
pub open spec fn display_launch(d: DisplayProtocol) -> Option<(Seq<char>, Seq<char>)> {
    match d {
        DisplayProtocol::Spice { port } => Some(("spicy"@, "spice://localhost:"@ + decimal(port as nat))),
        DisplayProtocol::Vnc { port } => Some(("vncviewer"@, "localhost:"@ + decimal(port as nat))),
        _ => None,
    }
}

impl VMManager {
    pub closed spec fn quickemu(&self) -> Seq<char> {
        self.quickemu_path@
    }

    pub closed spec fn quickget(&self) -> Option<Seq<char>> {
        opt_view(self.quickget_path)
    }

    pub fn with_paths(quickemu_path: String, quickget_path: Option<String>) -> (r: Self)
        ensures
            r.quickemu() == quickemu_path@,
            r.quickget() == opt_view(quickget_path),
    {
        VMManager { quickemu_path, quickget_path }
    }

    /// A manager for the binaries a discovery found, once they validate
    /// (see `BinaryDiscovery::validate` for the modes).
    pub fn from_binary_discovery(
        binary_discovery: &BinaryDiscovery,
        quickemu_mode: Option<u32>,
        quickget_mode: Option<u32>,
    ) -> (r: Result<Self, DiscoveryError>)
        ensures
            match r {
                Ok(m) => binary_discovery.quickemu() == Some(m.quickemu()) && m.quickget()
                    == binary_discovery.quickget() && is_exec(quickemu_mode),
                Err(_) => !(binary_discovery.quickemu().is_some() && is_exec(quickemu_mode) && (
                binary_discovery.quickget().is_some() ==> is_exec(quickget_mode))),
            },
    {
        binary_discovery.validate(quickemu_mode, quickget_mode)?;
        let quickemu_path = binary_discovery.quickemu_path()?.clone();
        let quickget_path = match binary_discovery.quickget_path() {
            Some(p) => Some(p.clone()),
            None => None,
        };
        Ok(VMManager { quickemu_path, quickget_path })
    }

    pub fn get_quickemu_path(&self) -> (r: &String)
        ensures
            r@ == self.quickemu(),
    {
        &self.quickemu_path
    }

    pub fn get_quickget_path(&self) -> (r: Option<&String>)
        ensures
            match r {
                Some(p) => self.quickget() == Some(p@),
                None => self.quickget().is_none(),
            },
    {
        match &self.quickget_path {
            Some(p) => Some(p),
            None => None,
        }
    }

    pub fn is_quickget_available(&self) -> (b: bool)
        ensures
            b == self.quickget().is_some(),
    {
        self.quickget_path.is_some()
    }

    /// The quickemu run that starts a VM: `quickemu --vm <config>` in the
    /// configuration's directory; an error when the VM already runs or its
    /// configuration path has no parent.
    pub fn start_command(&self, vm: &VM) -> (r: Result<LaunchCommand, VmError>)
        ensures
            vm.status is Running ==> r == Err::<LaunchCommand, VmError>(VmError::AlreadyRunning),
            !(vm.status is Running) ==> match path_parent(vm.config_path@) {
                None => r == Err::<LaunchCommand, VmError>(VmError::InvalidConfigPath),
                Some(dir) => r matches Ok(c) && c.program@ == self.quickemu() && views(c.args@)
                    == seq!["--vm"@, vm.config_path@] && c.current_dir@ == dir,
            },
    {
        if vm.is_running() {
            return Err(VmError::AlreadyRunning);
        }
        let dir = match parent_of(vm.config_path.as_str()) {
            Some(d) => d,
            None => return Err(VmError::InvalidConfigPath),
        };
        let mut args: Vec<String> = Vec::new();
        args.push("--vm".to_owned());
        args.push(vm.config_path.clone());
        assert(views(args@) =~= seq!["--vm"@, vm.config_path@]);
        Ok(LaunchCommand { program: self.quickemu_path.clone(), args, current_dir: dir })
    }

    /// The quickget run that creates a VM from a template in `output_dir`;
    /// an error when quickget is not available.
    pub fn creation_command(&self, template: &VMTemplate, output_dir: &str) -> (r: Result<LaunchCommand, VmError>)
        ensures
            match self.quickget() {
                None => r == Err::<LaunchCommand, VmError>(VmError::QuickgetUnavailable),
                Some(q) => r matches Ok(c) && c.program@ == q && views(c.args@)
                    == quickget_arguments(*template) && c.current_dir@ == output_dir@
                    && c.args@.len() >= 2 && c.args@[0]@ == template.os@ && c.args@[1]@
                    == template.version@,
            },
    {
        let program = match &self.quickget_path {
            Some(p) => p.clone(),
            None => return Err(VmError::QuickgetUnavailable),
        };
        let mut args: Vec<String> = Vec::new();
        args.push(template.os.clone());
        args.push(template.version.clone());
        match &template.edition {
            Some(e) => {
                args.push(e.clone());
                assert(views(args@) =~= seq![template.os@, template.version@, e@]);
            },
            None => {
                assert(views(args@) =~= seq![template.os@, template.version@]);
            },
        }
        Ok(LaunchCommand { program, args, current_dir: output_dir.to_owned() })
    }

    /// Where quickget leaves the configuration of a template's VM.
    pub fn template_config_path(template: &VMTemplate, output_dir: &str) -> (r: String)
        ensures
            r@ == join_path(output_dir@, template_config_name(template.os@, template.version@)),
    {
        let mut name = String::new();
        push_str(&mut name, template.os.as_str());
        push_str(&mut name, "-");
        push_str(&mut name, template.version.as_str());
        push_str(&mut name, ".conf");
        join(output_dir, name.as_str())
    }

    /// Whether a line of quickget's progress ends the wait for it: the
    /// success report, or a line that mentions a failure.
    pub fn is_final_creation_line(line: &str) -> (b: bool)
        ensures
            b == (starts_with(line@, "VM created successfully:"@) || contains(line@, "failed"@)),
    {
        str_starts_with(line, "VM created successfully:") || str_contains(line, "failed")
    }

    /// The outcome of a VM creation: the configuration path when quickget
    /// left the file there, else an error carrying quickget's output lines.
    pub fn creation_result(config_path: String, config_exists: bool, output_lines: &Vec<String>) -> (r: Result<String, VmError>)
        ensures
            config_exists ==> (r matches Ok(p) && p@ == config_path@),
            !config_exists ==> (r matches Err(VmError::CreationFailed(out)) && out@ == join_seqs(
                views(output_lines@),
                "\n"@,
            )),
    {
        if config_exists {
            Ok(config_path)
        } else {
            Err(VmError::CreationFailed(join_strings(output_lines, "\n")))
        }
    }

    /// The display client to run for a VM: `spicy` with a SPICE URL or
    /// `vncviewer` with a VNC address.
    pub fn display_client(vm: &VM) -> (r: Result<(String, String), VmError>)
        ensures
            match display_launch(vm.config.display) {
                Some((p, a)) => r matches Ok((rp, ra)) && rp@ == p && ra@ == a,
                None => r == Err::<(String, String), VmError>(VmError::DisplayNotSupported),
            },
    {
        match &vm.config.display {
            DisplayProtocol::Spice { port } => {
                let mut url = String::new();
                push_str(&mut url, "spice://localhost:");
                push_decimal(&mut url, *port as u64);
                Ok(("spicy".to_owned(), url))
            },
            DisplayProtocol::Vnc { port } => {
                let mut addr = String::new();
                push_str(&mut addr, "localhost:");
                push_decimal(&mut addr, *port as u64);
                Ok(("vncviewer".to_owned(), addr))
            },
            _ => Err(VmError::DisplayNotSupported),
        }
    }

    /// The ports probed for a VM's SPICE server, in order.
    pub fn spice_port_candidates() -> (r: Vec<u16>)
        ensures
            r@.len() == 10,
            forall|i: int| 0 <= i < 10 ==> r@[i] == 5930 + i,
    {
        let mut r: Vec<u16> = Vec::new();
        let mut p: u16 = 5930;
        while p < 5940
            invariant
                5930 <= p <= 5940,
                r@.len() == p - 5930,
                forall|i: int| 0 <= i < r@.len() ==> r@[i] == 5930 + i,
            decreases 5940 - p,
        {
            r.push(p);
            p = p + 1;
        }
        r
    }

    /// The SPICE port of a VM: none when it is not running, else the first
    /// candidate port found open (`open[i]` for `spice_port_candidates()[i]`).
    pub fn detected_spice_port(status: &VMStatus, open: &Vec<bool>) -> (r: Option<u16>)
        ensures
            !(status is Running) ==> r.is_none(),
            status is Running ==> match r {
                Some(p) => exists|i: int| 0 <= i < open.len() && i < 10 && open@[i] && p == 5930
                    + i && forall|j: int| 0 <= j < i ==> !open@[j],
                None => forall|j: int| 0 <= j < open.len() && j < 10 ==> !open@[j],
            },
    {
        match status {
            VMStatus::Running { .. } => {},
            _ => return None,
        }
        let mut i: usize = 0;
        while i < open.len() && i < 10
            invariant
                i <= 10,
                i <= open.len(),
                status is Running,
                forall|j: int| 0 <= j < i ==> !open@[j],
            decreases 10 - i,
        {
            if open[i] {
                return Some(5930 + i as u16);
            }
            i = i + 1;
        }
        None
    }

    /// Whether a VM offers console access: it shows a SPICE display, runs,
    /// and has a SPICE port open.
    pub fn supports_console_access(vm: &VM, spice_port: Option<u16>) -> (b: bool)
        ensures
            b == (vm.config.display is Spice && vm.status is Running && spice_port.is_some()),
    {
        match &vm.config.display {
            DisplayProtocol::Spice { .. } => vm.is_running() && spice_port.is_some(),
            _ => false,
        }
    }

    /// The SPICE port a console session is opened for: an error when the
    /// proxy is not running or the VM has no SPICE server.
    pub fn console_port(vm_id: &str, proxy_available: bool, spice_port: Option<u16>) -> (r: Result<u16, VmError>)
        ensures
            !proxy_available ==> r == Err::<u16, VmError>(VmError::ProxyNotInitialized),
            proxy_available ==> match spice_port {
                Some(p) => r == Ok::<u16, VmError>(p),
                None => r matches Err(VmError::NoSpiceServer(id)) && id@ == vm_id@,
            },
    {
        if !proxy_available {
            return Err(VmError::ProxyNotInitialized);
        }
        match spice_port {
            Some(p) => Ok(p),
            None => Err(VmError::NoSpiceServer(vm_id.to_owned())),
        }
    }
}

/// What happens while quickget creates a VM in the background.
#[derive(Debug, Clone, PartialEq)]
pub enum CreationEvent {
    /// The output directory could not be created.
    DirectoryFailed { dir: String, error: String },
    /// quickget could not be started.
    SpawnFailed { error: String, dir: String },
    Started,
    Stdout(String),
    Stderr(String),
    /// quickget succeeded; the configuration it wrote.
    Succeeded { config_path: String },
    /// quickget failed, with its exit code when it had one.
    Failed { code: Option<i32> },
    /// Waiting for quickget failed.
    WaitFailed(String),
}

/// The progress line reported for an event of a background creation.
pub open spec fn creation_line(e: CreationEvent) -> Seq<char> {
    match e {
        CreationEvent::DirectoryFailed { dir, error } => "Failed to create directory "@ + dir@ + ": "@
            + error@,
        CreationEvent::SpawnFailed { error, dir } => "Failed to start quickget: "@ + error@
            + " (working dir: "@ + dir@ + ")"@,
        CreationEvent::Started => "Quickget process started successfully"@,
        CreationEvent::Stdout(l) => "STDOUT: "@ + l@,
        CreationEvent::Stderr(l) => "STDERR: "@ + l@,
        CreationEvent::Succeeded { config_path } => "VM created successfully: "@ + config_path@,
        CreationEvent::Failed { code } => "VM creation failed with exit code: "@ + signed_decimal(
            match code {
                Some(c) => c as int,
                None => -1,
            },
        ),
        CreationEvent::WaitFailed(e) => "Error waiting for process: "@ + e@,
    }
}

/// The progress line for an event of a background creation.
pub fn creation_message(event: &CreationEvent) -> (r: String)
    ensures
        r@ == creation_line(*event),
{
    match event {
        CreationEvent::DirectoryFailed { dir, error } => {
            let mut r = concat("Failed to create directory ", dir.as_str());
            push_str(&mut r, ": ");
            push_str(&mut r, error.as_str());
            r
        },
        CreationEvent::SpawnFailed { error, dir } => {
            let mut r = concat("Failed to start quickget: ", error.as_str());
            push_str(&mut r, " (working dir: ");
            push_str(&mut r, dir.as_str());
            push_str(&mut r, ")");
            r
        },
        CreationEvent::Started => "Quickget process started successfully".to_owned(),
        CreationEvent::Stdout(l) => concat("STDOUT: ", l.as_str()),
        CreationEvent::Stderr(l) => concat("STDERR: ", l.as_str()),
        CreationEvent::Succeeded { config_path } => concat(
            "VM created successfully: ",
            config_path.as_str(),
        ),
        CreationEvent::Failed { code } => {
            let mut r = "VM creation failed with exit code: ".to_owned();
            let c: i64 = match code {
                Some(c) => *c as i64,
                None => -1,
            };
            push_signed_decimal(&mut r, c);
            r
        },
        CreationEvent::WaitFailed(e) => concat("Error waiting for process: ", e.as_str()),
    }
}

/// The command line a background creation logs: quickget, the OS, the
/// release and, when given, the edition, separated by spaces.
pub fn creation_command_text(quickget: &str, template: &VMTemplate) -> (r: String)
    ensures
        r@ == quickget@ + " "@ + template.os@ + " "@ + template.version@ + match template.edition {
            Some(e) => " "@ + e@,
            None => Seq::empty(),
        },
{
    let mut r = concat(quickget, " ");
    push_str(&mut r, template.os.as_str());
    push_str(&mut r, " ");
    push_str(&mut r, template.version.as_str());
    match &template.edition {
        Some(e) => {
            push_str(&mut r, " ");
            push_str(&mut r, e.as_str());
        },
        None => {
            assert(r@ + Seq::<char>::empty() =~= r@);
        },
    }
    r
}

impl Default for VMManager {
    fn default() -> (r: Self)
        ensures
            r.quickemu() == "quickemu"@,
            r.quickget() == Some("quickget"@),
    {
        Self::with_paths("quickemu".to_owned(), Some("quickget".to_owned()))
    }
}

/// quickget is asked for the template's system, then its release, then
/// its edition when one is given, and nothing more; the configuration it
/// writes is named after the first two.
pub proof fn law_quickget_asked_for_the_release(t: VMTemplate)
    ensures
        quickget_arguments(t).len() == (if t.edition is Some {
            3int
        } else {
            2int
        }),
        quickget_arguments(t)[0] == t.os@,
        quickget_arguments(t)[1] == t.version@,
        t.edition matches Some(e) ==> quickget_arguments(t)[2] == e@,
        template_config_name(quickget_arguments(t)[0], quickget_arguments(t)[1])
            == t.os@ + "-"@ + t.version@ + ".conf"@,
{
}

/// A process whose program is a QEMU system emulator and one of whose
/// arguments holds the VM's id, or its id with `.conf`, is that VM's QEMU
/// process.
pub proof fn law_qemu_naming_the_vm_is_its_process(cmd: Seq<Seq<char>>, vm_id: Seq<char>, k: int)
    requires
        cmd.len() > 0,
        contains(cmd[0], "qemu-system"@),
        0 <= k < cmd.len(),
        contains(cmd[k], vm_id) || contains(cmd[k], vm_id + ".conf"@),
    ensures
        is_qemu_of(cmd, vm_id),
{
}

/// The first process of the table that is the VM's QEMU process, with no
/// process before it that is the VM's QEMU process or quickemu wrapper,
/// is the one the VM runs as and the one stopping it kills.
pub proof fn law_first_qemu_process_is_found(ps: Seq<ProcessInfo>, vm_id: Seq<char>, i: int)
    requires
        0 <= i < ps.len(),
        is_qemu_of(cmd_view(ps[i]), vm_id),
        forall|j: int|
            0 <= j < i ==> !is_qemu_of(#[trigger] cmd_view(ps[j]), vm_id) && !is_quickemu_of(
                cmd_view(ps[j]),
                vm_id,
            ),
    ensures
        first_vm_process(ps, vm_id, 0, true) == Some(ps[i].pid),
        first_vm_process(ps, vm_id, 0, false) == Some(ps[i].pid),
{
    lemma_first_from(ps, vm_id, i, 0);
}

proof fn lemma_first_from(ps: Seq<ProcessInfo>, vm_id: Seq<char>, i: int, k: int)
    requires
        0 <= k <= i < ps.len(),
        is_qemu_of(cmd_view(ps[i]), vm_id),
        forall|j: int|
            0 <= j < i ==> !is_qemu_of(#[trigger] cmd_view(ps[j]), vm_id) && !is_quickemu_of(
                cmd_view(ps[j]),
                vm_id,
            ),
    ensures
        first_vm_process(ps, vm_id, k, true) == Some(ps[i].pid),
        first_vm_process(ps, vm_id, k, false) == Some(ps[i].pid),
    decreases i - k,
{
    if k < i {
        lemma_first_from(ps, vm_id, i, k + 1);
        assert(!is_qemu_of(cmd_view(ps[k]), vm_id));
    }
}

/// A process none of whose arguments holds the VM's id (with or without
/// `.conf`) is not that VM's QEMU process.
pub proof fn law_qemu_not_naming_the_vm_is_another(cmd: Seq<Seq<char>>, vm_id: Seq<char>)
    requires
        forall|k: int| 0 <= k < cmd.len() ==> !contains(#[trigger] cmd[k], vm_id) && !contains(
            cmd[k],
            vm_id + ".conf"@,
        ),
    ensures
        !is_qemu_of(cmd, vm_id),
{
}

} // verus!
