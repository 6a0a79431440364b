//! Where the `quickemu` and `quickget` programs are, and whether they can run.
use vstd::prelude::*;

use crate::environment::data_local_dir;
use crate::paths::{join, join_path};
use crate::text::{
    chars_of, ends_with, opt_view, push_str, str_ends_with, string_from_range, trim,
    skip_whitespace, trim_end_position,
};

verus! {

/// Why the discovered binaries cannot be used.
#[derive(Debug, Clone, PartialEq)]
pub enum DiscoveryError {
    /// No quickemu binary was found.
    QuickemuNotFound,
    /// `binary` was found at `path` but has no execute permission.
    NotExecutable { binary: String, path: String },
}

pub open spec fn not_found_message() -> Seq<char> {
    "quickemu not found. Please install quickemu or ensure it's in your PATH."@
}

pub open spec fn discovery_error_message(e: DiscoveryError) -> Seq<char> {
    match e {
        DiscoveryError::QuickemuNotFound => not_found_message(),
        DiscoveryError::NotExecutable { binary, path } => binary@ + " binary at "@ + path@
            + " is not executable"@,
    }
}

impl DiscoveryError {
    /// The text of the error, as the manager reports it.
    pub fn message(&self) -> (r: String)
        ensures
            r@ == discovery_error_message(*self),
    {
        match self {
            DiscoveryError::QuickemuNotFound => {
                "quickemu not found. Please install quickemu or ensure it's in your PATH.".to_owned()
            },
            DiscoveryError::NotExecutable { binary, path } => {
                let mut r = String::new();
                push_str(&mut r, binary.as_str());
                push_str(&mut r, " binary at ");
                push_str(&mut r, path.as_str());
                push_str(&mut r, " is not executable");
                r
            },
        }
    }
}

/// Whether a file mode has any execute bit (owner, group or other).
pub open spec fn mode_is_executable(mode: u32) -> bool {
    mode & 0o111 != 0
}

/// Whether a file with the given permission mode (`None` when its metadata
/// could not be read) counts as executable.
pub fn is_executable_mode(mode: Option<u32>) -> (b: bool)
    ensures
        b == (match mode {
            Some(m) => mode_is_executable(m),
            None => false,
        }),
{
    match mode {
        Some(m) => m & 0o111 != 0,
        None => false,
    }
}

/// The directory of the manager's own quickemu installation inside a data
/// directory.
pub open spec fn quickemu_dir_in(data_dir: Seq<char>) -> Seq<char> {
    join_path(join_path(data_dir, "quickemu-manager"@), "quickemu"@)
}

/// The text of `discovery_info` for the given paths and local data directory.
pub open spec fn discovery_report(
    quickemu: Option<Seq<char>>,
    quickget: Option<Seq<char>>,
    data_dir: Option<Seq<char>>,
) -> Seq<char> {
    let a = match quickemu {
        Some(p) => "quickemu: "@ + p + " ✓\n"@,
        None => "quickemu: NOT FOUND ✗ (will attempt download)\n"@,
    };
    let b = match quickget {
        Some(p) => "quickget: "@ + p + " ✓\n"@,
        None => "quickget: NOT FOUND ✗ (will attempt download)\n"@,
    };
    let c = match data_dir {
        Some(d) => "Local quickemu directory: "@ + quickemu_dir_in(d) + "\n"@,
        None => Seq::empty(),
    };
    a + b + c
}

/// Where the ZIP archive of the quickemu release a download installs from.
pub open spec fn download_url() -> Seq<char> {
    "https://github.com/quickemu-project/quickemu/archive/refs/tags/4.9.7.zip"@
}

/// The binary an archive member installs, if any: members whose path ends
/// in `/quickemu` or `/quickget` are extracted under that file name.
pub open spec fn archive_target(member: Seq<char>) -> Option<Seq<char>> {
    if ends_with(member, "/quickemu"@) {
        Some("quickemu"@)
    } else if ends_with(member, "/quickget"@) {
        Some("quickget"@)
    } else {
        None
    }
}

/// The path `which <name>` reported: its output trimmed, when the command
/// succeeded and printed something.
pub open spec fn which_command_path(success: bool, stdout: Seq<char>) -> Option<Seq<char>> {
    if success && trim(stdout).len() > 0 {
        Some(trim(stdout))
    } else {
        None
    }
}

/// The ways of finding a binary, tried in this order.
#[derive(Debug, Clone, Copy, PartialEq, Eq)]
pub enum LookupStrategy {
    /// The `which` crate's search of `PATH`.
    SearchPath,
    /// The system's `which` command.
    WhichCommand,
    /// The manager's own installation directory.
    LocalInstallation,
    /// Downloading and unpacking a quickemu release.
    Download,
}

/// What to do after a lookup strategy has run.
#[derive(Debug, Clone, PartialEq)]
pub enum LookupStep {
    Found(String),
    Try(LookupStrategy),
    NotFound,
}

pub open spec fn next_strategy(s: LookupStrategy) -> Option<LookupStrategy> {
    match s {
        LookupStrategy::SearchPath => Some(LookupStrategy::WhichCommand),
        LookupStrategy::WhichCommand => Some(LookupStrategy::LocalInstallation),
        LookupStrategy::LocalInstallation => Some(LookupStrategy::Download),
        LookupStrategy::Download => None,
    }
}

/// Service for discovering quickemu and quickget binaries
#[derive(Debug, Clone)]
pub struct BinaryDiscovery {
    quickemu_path: Option<String>,
    quickget_path: Option<String>,
}

impl BinaryDiscovery {
    /// The quickemu path held.
    pub closed spec fn quickemu(&self) -> Option<Seq<char>> {
        opt_view(self.quickemu_path)
    }

    /// The quickget path held.
    pub closed spec fn quickget(&self) -> Option<Seq<char>> {
        opt_view(self.quickget_path)
    }

    /// Create a new binary discovery service without performing discovery
    pub fn new_without_discovery() -> (r: Self)
        ensures
            r.quickemu().is_none(),
            r.quickget().is_none(),
    {
        BinaryDiscovery { quickemu_path: None, quickget_path: None }
    }

    /// Create a BinaryDiscovery with specific paths (for testing or custom configs)
    pub fn with_paths(quickemu_path: Option<String>, quickget_path: Option<String>) -> (r: Self)
        ensures
            r.quickemu() == opt_view(quickemu_path),
            r.quickget() == opt_view(quickget_path),
    {
        BinaryDiscovery { quickemu_path, quickget_path }
    }

    /// The first step of finding a binary.
    pub fn first_lookup() -> (r: LookupStep)
        ensures
            r == LookupStep::Try(LookupStrategy::SearchPath),
    {
        LookupStep::Try(LookupStrategy::SearchPath)
    }

    /// Given what a strategy found, the next step of finding a binary: the
    /// found path, the next strategy, or giving up after the last one.
    pub fn next_lookup(tried: LookupStrategy, found: Option<String>) -> (r: LookupStep)
        ensures
            match found {
                Some(p) => r == LookupStep::Found(p),
                None => match next_strategy(tried) {
                    Some(n) => r == LookupStep::Try(n),
                    None => r == LookupStep::NotFound,
                },
            },
    {
        match found {
            Some(p) => LookupStep::Found(p),
            None => match tried {
                LookupStrategy::SearchPath => LookupStep::Try(LookupStrategy::WhichCommand),
                LookupStrategy::WhichCommand => LookupStep::Try(LookupStrategy::LocalInstallation),
                LookupStrategy::LocalInstallation => LookupStep::Try(LookupStrategy::Download),
                LookupStrategy::Download => LookupStep::NotFound,
            },
        }
    }

    /// The path the system `which` command printed, if it succeeded.
    pub fn which_command_result(success: bool, stdout: &str) -> (r: Option<String>)
        ensures
            opt_view(r) == which_command_path(success, stdout@),
    {
        if !success {
            return None;
        }
        let v = chars_of(stdout);
        let a = skip_whitespace(&v, 0);
        let b = trim_end_position(&v, v.len());
        if a < b {
            Some(string_from_range(&v, a, b))
        } else {
            None
        }
    }

    /// The manager's own quickemu directory inside a local data directory.
    pub fn quickemu_dir_in(data_dir: &str) -> (r: String)
        ensures
            r@ == quickemu_dir_in(data_dir@),
    {
        let d = join(data_dir, "quickemu-manager");
        join(d.as_str(), "quickemu")
    }

    /// Get the directory where we store our local quickemu installation
    pub fn get_quickemu_dir() -> (r: Option<String>)
        ensures
            r.is_some() ==> exists|d: Seq<char>| r->0@ == quickemu_dir_in(d),
    {
        match data_local_dir() {
            Some(d) => {
                let r = Self::quickemu_dir_in(d.as_str());
                Some(r)
            },
            None => None,
        }
    }

    /// The path `binary_name` would have in the local installation below
    /// `data_dir`.
    pub fn local_binary_path(data_dir: &str, binary_name: &str) -> (r: String)
        ensures
            r@ == join_path(quickemu_dir_in(data_dir@), binary_name@),
    {
        let d = Self::quickemu_dir_in(data_dir);
        join(d.as_str(), binary_name)
    }

    /// Check our local quickemu installation directory: the binary below the
    /// local data directory, when a file with an execute bit stands there
    /// (`mode` is its permission mode, `None` when there is no such file).
    pub fn find_binary_in_local_quickemu(
        data_dir: Option<String>,
        binary_name: &str,
        mode: Option<u32>,
    ) -> (r: Option<String>)
        ensures
            r.is_some() <==> (data_dir.is_some() && mode.is_some() && mode_is_executable(
                mode->0,
            )),
            r.is_some() ==> r->0@ == join_path(quickemu_dir_in(data_dir->0@), binary_name@),
    {
        match data_dir {
            Some(d) => {
                if is_executable_mode(mode) {
                    Some(Self::local_binary_path(d.as_str(), binary_name))
                } else {
                    None
                }
            },
            None => None,
        }
    }

    /// The binary an archive member of a quickemu release provides.
    pub fn archive_member_target(member: &str) -> (r: Option<String>)
        ensures
            opt_view(r) == archive_target(member@),
    {
        if str_ends_with(member, "/quickemu") {
            Some("quickemu".to_owned())
        } else if str_ends_with(member, "/quickget") {
            Some("quickget".to_owned())
        } else {
            None
        }
    }

    /// The release archive a download fetches.
    pub fn download_url() -> (r: &'static str)
        ensures
            r@ == download_url(),
    {
        "https://github.com/quickemu-project/quickemu/archive/refs/tags/4.9.7.zip"
    }

    /// Get the discovered quickemu binary path
    pub fn quickemu_path(&self) -> (r: Result<&String, DiscoveryError>)
        ensures
            match r {
                Ok(p) => self.quickemu() == Some(p@),
                Err(e) => self.quickemu().is_none() && e == DiscoveryError::QuickemuNotFound,
            },
    {
        match &self.quickemu_path {
            Some(p) => Ok(p),
            None => Err(DiscoveryError::QuickemuNotFound),
        }
    }

    /// Get the discovered quickget binary path (optional)
    pub fn quickget_path(&self) -> (r: Option<&String>)
        ensures
            match r {
                Some(p) => self.quickget() == Some(p@),
                None => self.quickget().is_none(),
            },
    {
        match &self.quickget_path {
            Some(p) => Some(p),
            None => None,
        }
    }

    /// Check if quickemu is available
    pub fn has_quickemu(&self) -> (b: bool)
        ensures
            b == self.quickemu().is_some(),
    {
        self.quickemu_path.is_some()
    }

    /// Check if quickget is available
    pub fn has_quickget(&self) -> (b: bool)
        ensures
            b == self.quickget().is_some(),
    {
        self.quickget_path.is_some()
    }

    /// Get both paths as PathBuf for use in VMManager
    pub fn get_paths(&self) -> (r: (Option<String>, Option<String>))
        ensures
            opt_view(r.0) == self.quickemu(),
            opt_view(r.1) == self.quickget(),
    {
        let a = match &self.quickemu_path {
            Some(p) => Some(p.clone()),
            None => None,
        };
        let b = match &self.quickget_path {
            Some(p) => Some(p.clone()),
            None => None,
        };
        (a, b)
    }

    /// Validate that the discovered binaries are actually executable, given
    /// the permission modes of the files at the two paths (`None` when a
    /// file's metadata cannot be read).
    pub fn validate(&self, quickemu_mode: Option<u32>, quickget_mode: Option<u32>) -> (r: Result<
        (),
        DiscoveryError,
    >)
        ensures
            match r {
                Ok(_) => self.quickemu().is_some() && is_exec(quickemu_mode) && (
                self.quickget().is_some() ==> is_exec(quickget_mode)),
                Err(DiscoveryError::QuickemuNotFound) => self.quickemu().is_none(),
                Err(DiscoveryError::NotExecutable { binary, path }) => (self.quickemu().is_some()
                    && !is_exec(quickemu_mode) && binary@ == "quickemu"@ && Some(path@)
                    == self.quickemu()) || (self.quickemu().is_some() && is_exec(quickemu_mode)
                    && self.quickget().is_some() && !is_exec(quickget_mode) && binary@
                    == "quickget"@ && Some(path@) == self.quickget()),
            },
    {
        let quickemu_path = self.quickemu_path()?;
        if !is_executable_mode(quickemu_mode) {
            return Err(
                DiscoveryError::NotExecutable {
                    binary: "quickemu".to_owned(),
                    path: quickemu_path.clone(),
                },
            );
        }
        match &self.quickget_path {
            Some(p) => {
                if !is_executable_mode(quickget_mode) {
                    return Err(
                        DiscoveryError::NotExecutable {
                            binary: "quickget".to_owned(),
                            path: p.clone(),
                        },
                    );
                }
            },
            None => {},
        }
        Ok(())
    }

    /// Detailed discovery information for a known local data directory.
    pub fn discovery_info_in(&self, data_dir: Option<String>) -> (r: String)
        ensures
            r@ == discovery_report(self.quickemu(), self.quickget(), opt_view(data_dir)),
    {
        let mut info = String::new();
        match &self.quickemu_path {
            Some(p) => {
                push_str(&mut info, "quickemu: ");
                push_str(&mut info, p.as_str());
                push_str(&mut info, " ✓\n");
            },
            None => push_str(&mut info, "quickemu: NOT FOUND ✗ (will attempt download)\n"),
        }
        match &self.quickget_path {
            Some(p) => {
                push_str(&mut info, "quickget: ");
                push_str(&mut info, p.as_str());
                push_str(&mut info, " ✓\n");
            },
            None => push_str(&mut info, "quickget: NOT FOUND ✗ (will attempt download)\n"),
        }
        match data_dir {
            Some(d) => {
                let dir = Self::quickemu_dir_in(d.as_str());
                push_str(&mut info, "Local quickemu directory: ");
                push_str(&mut info, dir.as_str());
                push_str(&mut info, "\n");
            },
            None => {},
        }
        info
    }

    /// Get detailed discovery information for debugging
    pub fn discovery_info(&self) -> (r: String)
        ensures
            exists|d: Option<Seq<char>>| r@ == discovery_report(self.quickemu(), self.quickget(), d),
    {
        let d = data_local_dir();
        let ghost dv = opt_view(d);
        let r = self.discovery_info_in(d);
        assert(r@ == discovery_report(self.quickemu(), self.quickget(), dv));
        r
    }
}

pub open spec fn is_exec(mode: Option<u32>) -> bool {
    match mode {
        Some(m) => mode_is_executable(m),
        None => false,
    }
}

impl Default for BinaryDiscovery {
    fn default() -> (r: Self)
        ensures
            r.quickemu().is_none(),
            r.quickget().is_none(),
    {
        Self::new_without_discovery()
    }
}

} // verus!
