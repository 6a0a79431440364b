//! The preferences form: how a theme is offered as a choice and read back.
use vstd::prelude::*;

use crate::text::{same_text, views};
use crate::web::models::{AppConfigDto, ThemeDto};

verus! {

/// The choice the form shows for a theme.
pub open spec fn choice_of(t: ThemeDto) -> Seq<char> {
    match t {
        ThemeDto::Light => "light"@,
        ThemeDto::Dark => "dark"@,
        ThemeDto::System => "auto"@,
    }
}

/// The theme a choice stands for: `light` and `dark` their own, any other
/// text the system's.
pub open spec fn theme_for_choice(s: Seq<char>) -> ThemeDto {
    if s == "light"@ {
        ThemeDto::Light
    } else if s == "dark"@ {
        ThemeDto::Dark
    } else {
        ThemeDto::System
    }
}

/// The choice the form shows for a theme.
pub fn theme_choice(t: ThemeDto) -> (r: &'static str)
    ensures
        r@ == choice_of(t),
{
    match t {
        ThemeDto::Light => "light",
        ThemeDto::Dark => "dark",
        ThemeDto::System => "auto",
    }
}

/// The theme a submitted choice stands for.
pub fn theme_from_choice(s: &str) -> (t: ThemeDto)
    ensures
        t == theme_for_choice(s@),
{
    if same_text(s, "light") {
        ThemeDto::Light
    } else if same_text(s, "dark") {
        ThemeDto::Dark
    } else {
        ThemeDto::System
    }
}

/// The choice the form starts with, and returns to on a reset.
pub fn default_theme_choice() -> (r: &'static str)
    ensures
        r@ == "dark"@,
{
    "dark"
}

/// Every theme survives being shown as a choice and read back.
pub proof fn law_theme_choice_round_trip(t: ThemeDto)
    ensures
        theme_for_choice(choice_of(t)) == t,
{
    reveal_strlit("light");
    reveal_strlit("dark");
    reveal_strlit("auto");
    assert("light"@ != "dark"@) by {
        assert("light"@.len() != "dark"@.len());
    }
    assert("auto"@ != "light"@) by {
        assert("auto"@[0] != "light"@[0]);
    }
    assert("auto"@ != "dark"@) by {
        assert("auto"@[0] != "dark"@[0]);
    }
}

/// The settings saved from the form: those the server had, with the theme
/// the choice stands for.
pub fn with_theme_choice(config: AppConfigDto, choice: &str) -> (r: AppConfigDto)
    ensures
        views(r.vm_directories@) == views(config.vm_directories@),
        r.auto_download_tools == config.auto_download_tools,
        r.theme == theme_for_choice(choice@),
{
    let theme = theme_from_choice(choice);
    AppConfigDto { theme, ..config }
}

} // verus!
