//! The widget style the desktop front end picks for the platform it runs
//! on.
use vstd::prelude::*;

use crate::text::{lowercase, same_text, to_lowercase};

verus! {

/// The operating system the program was built for.
#[derive(Debug, Clone, Copy, PartialEq, Eq)]
pub enum Platform {
    MacOs,
    Windows,
    Linux,
    Other,
}

/// The style for a Linux desktop named by `XDG_CURRENT_DESKTOP`, compared
/// in lower case.
pub open spec fn desktop_style(desktop: Seq<char>) -> Seq<char> {
    let d = lowercase(desktop);
    if d == "gnome"@ || d == "unity"@ || d == "x-cinnamon"@ {
        "material"@
    } else if d == "kde"@ || d == "plasma"@ {
        "fluent"@
    } else if d == "cosmic"@ {
        "cosmic"@
    } else {
        "native"@
    }
}

/// Cupertino on macOS, Fluent on Windows, on Linux the style of the
/// desktop in use, and the native style otherwise.
pub open spec fn platform_style(p: Platform, desktop: Option<Seq<char>>) -> Seq<char> {
    match p {
        Platform::MacOs => "cupertino"@,
        Platform::Windows => "fluent"@,
        Platform::Linux => match desktop {
            Some(d) => desktop_style(d),
            None => "native"@,
        },
        Platform::Other => "native"@,
    }
}

/// The style name for a platform and, on Linux, the current desktop.
pub fn detect_platform_style(platform: Platform, desktop: Option<&str>) -> (r: &'static str)
    ensures
        r@ == platform_style(
            platform,
            match desktop {
                Some(d) => Some(d@),
                None => None,
            },
        ),
{
    match platform {
        Platform::MacOs => "cupertino",
        Platform::Windows => "fluent",
        Platform::Linux => match desktop {
            Some(d) => {
                let low = to_lowercase(d);
                let l = low.as_str();
                if same_text(l, "gnome") || same_text(l, "unity") || same_text(l, "x-cinnamon") {
                    "material"
                } else if same_text(l, "kde") || same_text(l, "plasma") {
                    "fluent"
                } else if same_text(l, "cosmic") {
                    "cosmic"
                } else {
                    "native"
                }
            },
            None => "native",
        },
        Platform::Other => "native",
    }
}

} // verus!
