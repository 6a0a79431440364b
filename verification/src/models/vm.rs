//! Virtual machines as the manager sees them.
use vstd::prelude::*;

use crate::text::{decimal, push_decimal, push_str};

verus! {

/// The identifier of a VM: the name of its configuration file without the
/// `.conf` extension.
#[derive(Debug, Clone, PartialEq, Eq, Hash)]
pub struct VMId(pub String);

#[derive(Debug, Clone, PartialEq)]
pub enum VMStatus {
    Running { pid: u32 },
    Stopped,
    Starting,
    Stopping,
    Error(String),
}

#[derive(Debug, Clone, Copy, PartialEq)]
pub enum DisplayProtocol {
    Spice { port: u16 },
    Vnc { port: u16 },
    Sdl,
    NoDisplay,
}

/// A VM found on disk. `last_modified` is the modification time of its
/// configuration file, in seconds since the Unix epoch.
#[derive(Debug, Clone, PartialEq)]
pub struct VM {
    pub id: VMId,
    pub name: String,
    pub config_path: String,
    pub config: VMConfig,
    pub status: VMStatus,
    pub last_modified: u64,
}

#[derive(Debug, Clone, PartialEq)]
pub struct VMConfig {
    pub guest_os: String,
    pub disk_img: Option<String>,
    pub iso: Option<String>,
    pub ram: String,
    pub cpu_cores: u32,
    pub disk_size: Option<String>,
    pub display: DisplayProtocol,
    pub ssh_port: Option<u16>,
    pub raw_config: String,
}

#[derive(Debug, Clone, PartialEq)]
pub struct VMTemplate {
    pub name: String,
    pub os: String,
    pub version: String,
    pub edition: Option<String>,
    pub ram: String,
    pub disk_size: String,
    pub cpu_cores: u32,
}

/// The URL a display client connects to for a display protocol.
pub open spec fn display_url(display: DisplayProtocol) -> Option<Seq<char>> {
    match display {
        DisplayProtocol::Spice { port } => Some("spice://localhost:"@ + decimal(port as nat)),
        DisplayProtocol::Vnc { port } => Some("vnc://localhost:"@ + decimal(port as nat)),
        _ => None,
    }
}

impl VM {
    pub fn is_running(&self) -> (b: bool)
        ensures
            b == (self.status is Running),
    {
        match self.status {
            VMStatus::Running { .. } => true,
            _ => false,
        }
    }

    pub fn get_display_url(&self) -> (r: Option<String>)
        ensures
            match r {
                Some(s) => display_url(self.config.display) == Some(s@),
                None => display_url(self.config.display).is_none(),
            },
    {
        match &self.config.display {
            DisplayProtocol::Spice { port } => {
                let mut s = String::new();
                push_str(&mut s, "spice://localhost:");
                push_decimal(&mut s, *port as u64);
                Some(s)
            },
            DisplayProtocol::Vnc { port } => {
                let mut s = String::new();
                push_str(&mut s, "vnc://localhost:");
                push_decimal(&mut s, *port as u64);
                Some(s)
            },
            _ => None,
        }
    }
}

fn copy_text(o: &Option<String>) -> (r: Option<String>)
    ensures
        r == *o,
{
    match o {
        Some(s) => Some(s.clone()),
        None => None,
    }
}

impl VMConfig {
    /// The configuration with the values of the edit dialog: the RAM size
    /// and core count as entered, and the disk size when one was entered.
    pub fn with_edits(&self, ram: String, cpu_cores: u32, disk_size: &str) -> (r: VMConfig)
        ensures
            r.ram == ram,
            r.cpu_cores == cpu_cores,
            disk_size@.len() == 0 ==> r.disk_size == self.disk_size,
            disk_size@.len() > 0 ==> (r.disk_size matches Some(d) && d@ == disk_size@),
            r.guest_os == self.guest_os,
            r.disk_img == self.disk_img,
            r.iso == self.iso,
            r.display == self.display,
            r.ssh_port == self.ssh_port,
            r.raw_config == self.raw_config,
    {
        VMConfig {
            guest_os: self.guest_os.clone(),
            disk_img: copy_text(&self.disk_img),
            iso: copy_text(&self.iso),
            ram,
            cpu_cores,
            disk_size: if disk_size.is_empty() {
                copy_text(&self.disk_size)
            } else {
                Some(disk_size.to_owned())
            },
            display: self.display,
            ssh_port: self.ssh_port,
            raw_config: self.raw_config.clone(),
        }
    }
}

} // verus!
