//! The models the web front end exchanges with the server.
use vstd::prelude::*;

use crate::models::config::{AppConfig, Theme};
use crate::models::vm::{VMStatus as CoreVMStatus, VMTemplate, VM as CoreVM};
use crate::services::spice_proxy::ConsoleInfo as CoreConsoleInfo;
use crate::text::{
    chars_of, concat, opt_view, parse_u32, parse_u32_range, push_str, string_from_range, trim,
    views,
};

verus! {

#[derive(Debug, Clone, PartialEq)]
pub enum VMStatus {
    Running { pid: u32 },
    Stopped,
    Starting,
    Stopping,
    Error(String),
}

/// The label the interface shows for a status.
pub open spec fn status_label(s: VMStatus) -> Seq<char> {
    match s {
        VMStatus::Running { .. } => "Running"@,
        VMStatus::Stopped => "Stopped"@,
        VMStatus::Starting => "Starting..."@,
        VMStatus::Stopping => "Stopping..."@,
        VMStatus::Error(_) => "Error"@,
    }
}

// Extension trait to add UI-specific methods to VMStatus
pub trait VMStatusExt {
    spec fn spec_running(&self) -> bool;

    spec fn spec_label(&self) -> Seq<char>;

    fn is_running(&self) -> (b: bool)
        ensures
            b == self.spec_running(),
    ;

    fn display_text(&self) -> (r: &str)
        ensures
            r@ == self.spec_label(),
    ;
}

impl VMStatusExt for VMStatus {
    open spec fn spec_running(&self) -> bool {
        *self is Running
    }

    open spec fn spec_label(&self) -> Seq<char> {
        status_label(*self)
    }

    fn is_running(&self) -> (b: bool) {
        match self {
            VMStatus::Running { .. } => true,
            _ => false,
        }
    }

    fn display_text(&self) -> (r: &str) {
        match self {
            VMStatus::Running { .. } => "Running",
            VMStatus::Stopped => "Stopped",
            VMStatus::Starting => "Starting...",
            VMStatus::Stopping => "Stopping...",
            VMStatus::Error(_) => "Error",
        }
    }
}

// Simplified VM model for web UI
#[derive(Debug, Clone, PartialEq)]
pub struct VM {
    pub id: String,
    pub name: String,
    pub os: String,
    pub version: String,
    pub status: VMStatus,
    pub cpu_cores: u32,
    pub ram_mb: u32,
    pub disk_size: String,
    pub config_path: String,
}

#[derive(Debug, Clone)]
pub struct CreateVMRequest {
    pub os: String,
    pub version: String,
    pub edition: Option<String>,
    pub name: Option<String>,
    pub ram: Option<String>,
    pub disk_size: Option<String>,
    pub cpu_cores: Option<u32>,
}

#[derive(Debug, Clone)]
pub struct EditVMRequest {
    pub vm_id: String,
    pub name: Option<String>,
    pub ram: Option<String>,
    pub cpu_cores: Option<u32>,
}

// Console information for SPICE connections - cross-platform compatible
#[derive(Debug, Clone)]
pub struct ConsoleInfo {
    pub websocket_url: String,
    pub auth_token: String,
    pub connection_id: String,
}

// Cross-platform configuration data transfer object
#[derive(Debug, Clone)]
pub struct AppConfigDto {
    pub vm_directories: Vec<String>,
    pub auto_download_tools: bool,
    pub theme: ThemeDto,
}

#[derive(Debug, Clone, Copy, PartialEq, Eq)]
pub enum ThemeDto {
    System,
    Light,
    Dark,
}

// ---------------------------------------------------------------------------
// RAM sizes and versions
// ---------------------------------------------------------------------------

/// The first index from `k` holding `a` or `b`.
pub open spec fn first_of(s: Seq<char>, a: char, b: char, k: int) -> Option<int>
    decreases s.len() - k,
{
    if k < 0 || k >= s.len() {
        None
    } else if s[k] == a || s[k] == b {
        Some(k)
    } else {
        first_of(s, a, b, k + 1)
    }
}

/// The number before the first `g`/`G` of the trimmed size, in gigabytes.
pub open spec fn ram_gigabytes(s: Seq<char>) -> Option<u32> {
    let t = trim(s);
    match first_of(t, 'G', 'g', 0) {
        Some(p) => parse_u32(t.take(p)),
        None => None,
    }
}

/// The number before the first `m`/`M` of the trimmed size, in megabytes.
pub open spec fn ram_megabytes(s: Seq<char>) -> Option<u32> {
    let t = trim(s);
    match first_of(t, 'M', 'm', 0) {
        Some(p) => parse_u32(t.take(p)),
        None => None,
    }
}

/// A RAM size in quickemu's notation (`"4G"`, `"512M"`, case ignored) in
/// megabytes; 4096 when it cannot be read.
pub open spec fn ram_size_mb(s: Seq<char>) -> int {
    match ram_gigabytes(s) {
        Some(gb) => gb * 1024,
        None => match ram_megabytes(s) {
            Some(mb) => mb as int,
            None => 4096,
        },
    }
}

/// The gigabyte count of a size fits in megabytes as a `u32`.
pub open spec fn ram_size_fits(s: Seq<char>) -> bool {
    match ram_gigabytes(s) {
        Some(gb) => gb * 1024 <= u32::MAX,
        None => true,
    }
}

fn find_first_of(v: &Vec<char>, a: char, b: char) -> (r: Option<usize>)
    ensures
        match r {
            Some(p) => p < v.len() && first_of(v@, a, b, 0) == Some(p as int),
            None => first_of(v@, a, b, 0).is_none(),
        },
{
    let mut k: usize = 0;
    while k < v.len()
        invariant
            k <= v.len(),
            first_of(v@, a, b, 0) == first_of(v@, a, b, k as int),
        decreases v.len() - k,
    {
        if v[k] == a || v[k] == b {
            return Some(k);
        }
        k = k + 1;
    }
    None
}

/// Whether a RAM size can be converted: its gigabytes, if it gives them,
/// fit in megabytes as a `u32`.
pub fn ram_size_convertible(ram_str: &str) -> (b: bool)
    ensures
        b == ram_size_fits(ram_str@),
{
    let t = crate::text::trim_str(ram_str);
    let v = chars_of(t.as_str());
    match find_first_of(&v, 'G', 'g') {
        Some(p) => {
            assert(v@.take(p as int) == v@.subrange(0, p as int));
            match parse_u32_range(&v, 0, p) {
                Some(gb) => gb <= 4194303,
                None => true,
            }
        },
        None => true,
    }
}

/// Helper function to parse RAM size from quickemu format
pub fn parse_ram_size(ram_str: &str) -> (r: u32)
    requires
        ram_size_fits(ram_str@),
    ensures
        r == ram_size_mb(ram_str@),
{
    let t = crate::text::trim_str(ram_str);
    let v = chars_of(t.as_str());
    match find_first_of(&v, 'G', 'g') {
        Some(p) => {
            assert(v@.take(p as int) == v@.subrange(0, p as int));
            match parse_u32_range(&v, 0, p) {
                Some(gb) => {
                    return gb * 1024;
                },
                None => {},
            }
        },
        None => {},
    }
    match find_first_of(&v, 'M', 'm') {
        Some(p) => {
            assert(v@.take(p as int) == v@.subrange(0, p as int));
            match parse_u32_range(&v, 0, p) {
                Some(mb) => {
                    return mb;
                },
                None => {},
            }
        },
        None => {},
    }
    4096
}

/// The index of the last `-` of `s`, searching below `k`.
pub open spec fn last_dash_before(s: Seq<char>, k: int) -> Option<int>
    decreases k,
{
    if k <= 0 || k > s.len() {
        None
    } else if s[k - 1] == '-' {
        Some(k - 1)
    } else {
        last_dash_before(s, k - 1)
    }
}

/// What follows the last `-` of a guest OS string, or `N/A`.
pub open spec fn version_of(guest_os: Seq<char>) -> Seq<char> {
    match last_dash_before(guest_os, guest_os.len() as int) {
        Some(p) => guest_os.subrange(p + 1, guest_os.len() as int),
        None => "N/A"@,
    }
}

/// Helper function to extract version from guest OS string
pub fn extract_version(guest_os: &str) -> (r: String)
    ensures
        r@ == version_of(guest_os@),
{
    let v = chars_of(guest_os);
    let mut k: usize = v.len();
    while k > 0
        invariant
            k <= v.len(),
            v@ == guest_os@,
            last_dash_before(v@, v.len() as int) == last_dash_before(v@, k as int),
        decreases k,
    {
        if v[k - 1] == '-' {
            return string_from_range(&v, k, v.len());
        }
        k = k - 1;
    }
    "N/A".to_owned()
}

// ---------------------------------------------------------------------------
// Conversions
// ---------------------------------------------------------------------------

pub open spec fn web_status(s: CoreVMStatus) -> VMStatus {
    match s {
        CoreVMStatus::Running { pid } => VMStatus::Running { pid },
        CoreVMStatus::Stopped => VMStatus::Stopped,
        CoreVMStatus::Starting => VMStatus::Starting,
        CoreVMStatus::Stopping => VMStatus::Stopping,
        CoreVMStatus::Error(m) => VMStatus::Error(m),
    }
}

/// Whether `r` is the web model of the VM `core_vm`.
pub open spec fn web_model_of(r: VM, core_vm: CoreVM) -> bool {
    &&& r.id@ == core_vm.id.0@
    &&& r.name@ == core_vm.name@
    &&& r.os@ == core_vm.config.guest_os@
    &&& r.version@ == version_of(core_vm.config.guest_os@)
    &&& r.status == web_status(core_vm.status)
    &&& r.cpu_cores == core_vm.config.cpu_cores
    &&& r.ram_mb == ram_size_mb(core_vm.config.ram@)
    &&& r.disk_size@ == match core_vm.config.disk_size {
        Some(d) => d@,
        None => "N/A"@,
    }
    &&& r.config_path@ == core_vm.config_path@
}

impl VM {
    /// The web model of a VM found on disk.
    pub fn from_core(core_vm: &CoreVM) -> (r: VM)
        requires
            ram_size_fits(core_vm.config.ram@),
        ensures
            web_model_of(r, *core_vm),
    {
        let ram_mb = parse_ram_size(core_vm.config.ram.as_str());
        let status = match &core_vm.status {
            CoreVMStatus::Running { pid } => VMStatus::Running { pid: *pid },
            CoreVMStatus::Stopped => VMStatus::Stopped,
            CoreVMStatus::Starting => VMStatus::Starting,
            CoreVMStatus::Stopping => VMStatus::Stopping,
            CoreVMStatus::Error(msg) => VMStatus::Error(msg.clone()),
        };
        VM {
            id: core_vm.id.0.clone(),
            name: core_vm.name.clone(),
            os: core_vm.config.guest_os.clone(),
            version: extract_version(core_vm.config.guest_os.as_str()),
            status,
            cpu_cores: core_vm.config.cpu_cores,
            ram_mb,
            disk_size: match &core_vm.config.disk_size {
                Some(d) => d.clone(),
                None => "N/A".to_owned(),
            },
            config_path: core_vm.config_path.clone(),
        }
    }
}

impl VM {
    /// The web model of a VM found on disk, when its RAM size can be
    /// converted; `None` for a size whose megabytes overflow a `u32`.
    pub fn try_from_core(core_vm: &CoreVM) -> (r: Option<VM>)
        ensures
            r is Some <==> ram_size_fits(core_vm.config.ram@),
            r matches Some(v) ==> web_model_of(v, *core_vm),
    {
        if ram_size_convertible(core_vm.config.ram.as_str()) {
            Some(VM::from_core(core_vm))
        } else {
            None
        }
    }
}

impl CreateVMRequest {
    /// The template a creation request asks for: unnamed VMs are named
    /// `"<os> <version>"`, and RAM, disk and CPUs default to 4G, 25G and 4.
    pub fn into_template(self) -> (t: VMTemplate)
        ensures
            t.name@ == match self.name {
                Some(n) => n@,
                None => self.os@ + " "@ + self.version@,
            },
            t.os@ == self.os@,
            t.version@ == self.version@,
            opt_view(t.edition) == opt_view(self.edition),
            t.ram@ == match self.ram {
                Some(r) => r@,
                None => "4G"@,
            },
            t.disk_size@ == match self.disk_size {
                Some(d) => d@,
                None => "25G"@,
            },
            t.cpu_cores == match self.cpu_cores {
                Some(c) => c,
                None => 4,
            },
    {
        let name = match self.name {
            Some(n) => n,
            None => {
                let mut n = String::new();
                push_str(&mut n, self.os.as_str());
                push_str(&mut n, " ");
                push_str(&mut n, self.version.as_str());
                n
            },
        };
        VMTemplate {
            name,
            os: self.os,
            version: self.version,
            edition: self.edition,
            ram: match self.ram {
                Some(r) => r,
                None => "4G".to_owned(),
            },
            disk_size: match self.disk_size {
                Some(d) => d,
                None => "25G".to_owned(),
            },
            cpu_cores: match self.cpu_cores {
                Some(c) => c,
                None => 4,
            },
        }
    }
}

impl ConsoleInfo {
    /// The web copy of a console session's details.
    pub fn from_core(core_info: CoreConsoleInfo) -> (r: ConsoleInfo)
        ensures
            r.websocket_url == core_info.websocket_url,
            r.auth_token == core_info.auth_token,
            r.connection_id == core_info.connection_id,
    {
        ConsoleInfo {
            websocket_url: core_info.websocket_url,
            auth_token: core_info.auth_token,
            connection_id: core_info.connection_id,
        }
    }
}

pub open spec fn theme_dto(t: Theme) -> ThemeDto {
    match t {
        Theme::System => ThemeDto::System,
        Theme::Light => ThemeDto::Light,
        Theme::Dark => ThemeDto::Dark,
    }
}

pub open spec fn theme_of(t: ThemeDto) -> Theme {
    match t {
        ThemeDto::System => Theme::System,
        ThemeDto::Light => Theme::Light,
        ThemeDto::Dark => Theme::Dark,
    }
}

impl AppConfigDto {
    /// The settings the web front end shows.
    pub fn from_config(config: AppConfig) -> (r: AppConfigDto)
        ensures
            views(r.vm_directories@) == config.directories(),
            r.auto_download_tools == config.auto_download_tools,
            r.theme == theme_dto(config.theme),
    {
        AppConfigDto {
            vm_directories: config.vm_directories,
            auto_download_tools: config.auto_download_tools,
            theme: match config.theme {
                Theme::System => ThemeDto::System,
                Theme::Light => ThemeDto::Light,
                Theme::Dark => ThemeDto::Dark,
            },
        }
    }

    /// The settings the web front end submitted, as a configuration: no
    /// binary paths, a one-second update interval.
    pub fn into_config(self) -> (c: AppConfig)
        ensures
            c.directories() == views(self.vm_directories@),
            c.quickemu_path.is_none(),
            c.quickget_path.is_none(),
            c.auto_download_tools == self.auto_download_tools,
            c.theme == theme_of(self.theme),
            c.update_interval_ms == 1000,
    {
        AppConfig {
            vm_directories: self.vm_directories,
            quickemu_path: None,
            quickget_path: None,
            auto_download_tools: self.auto_download_tools,
            theme: match self.theme {
                ThemeDto::System => Theme::System,
                ThemeDto::Light => Theme::Light,
                ThemeDto::Dark => Theme::Dark,
            },
            update_interval_ms: 1000,
        }
    }

    /// The directory new VMs go to: the first listed, else `VMs` in the home
    /// directory (`$HOME`), else `/tmp/VMs`.
    pub fn primary_vm_directory_in(&self, home: Option<String>) -> (r: String)
        ensures
            self.vm_directories.len() > 0 ==> r@ == self.vm_directories@[0]@,
            self.vm_directories.len() == 0 ==> r@ == match home {
                Some(h) => h@ + "/VMs"@,
                None => "/tmp/VMs"@,
            },
    {
        if self.vm_directories.len() > 0 {
            self.vm_directories[0].clone()
        } else {
            match home {
                Some(h) => concat(h.as_str(), "/VMs"),
                None => "/tmp/VMs".to_owned(),
            }
        }
    }
}

} // verus!
