//! What a VM card of the desktop front end shows for a VM's status, what a
//! click on it does, and what a status change asks of the process monitor.
use vstd::prelude::*;

use crate::models::vm::VMStatus;

verus! {

/// How a card looks for a status. A field that is `None` is left as it
/// was.
pub struct CardView {
    pub status_text: &'static str,
    pub icon_name: &'static str,
    pub css_class: &'static str,
    pub icon_visible: bool,
    pub status_button_visible: bool,
    /// The label of the start button and whether it can be pressed.
    pub status_button: Option<(&'static str, bool)>,
    pub console_button_visible: Option<bool>,
    pub status_label_visible: bool,
    pub control_area_visible: bool,
    /// The label of the stop button and whether it can be pressed.
    pub stop_button: Option<(&'static str, bool)>,
    /// The metrics show dashes: the VM is not running.
    pub metrics_cleared: bool,
}

/// The card's view of a status, as text.
pub struct CardViewSpec {
    pub status_text: Seq<char>,
    pub icon_name: Seq<char>,
    pub css_class: Seq<char>,
    pub icon_visible: bool,
    pub status_button_visible: bool,
    pub status_button: Option<(Seq<char>, bool)>,
    pub console_button_visible: Option<bool>,
    pub status_label_visible: bool,
    pub control_area_visible: bool,
    pub stop_button: Option<(Seq<char>, bool)>,
    pub metrics_cleared: bool,
}

pub open spec fn opt_label(o: Option<(&'static str, bool)>) -> Option<(Seq<char>, bool)> {
    match o {
        Some((l, b)) => Some((l@, b)),
        None => None,
    }
}

pub open spec fn card_view_spec(v: CardView) -> CardViewSpec {
    CardViewSpec {
        status_text: v.status_text@,
        icon_name: v.icon_name@,
        css_class: v.css_class@,
        icon_visible: v.icon_visible,
        status_button_visible: v.status_button_visible,
        status_button: opt_label(v.status_button),
        console_button_visible: v.console_button_visible,
        status_label_visible: v.status_label_visible,
        control_area_visible: v.control_area_visible,
        stop_button: opt_label(v.stop_button),
        metrics_cleared: v.metrics_cleared,
    }
}

/// A stopped VM offers Start; a running one its console and Stop VM; a
/// starting one a disabled Starting...; a stopping one its status and a
/// disabled Stopping...; a failed one Retry.
pub open spec fn card_for(s: VMStatus) -> CardViewSpec {
    match s {
        VMStatus::Stopped => CardViewSpec {
            status_text: "Stopped"@,
            icon_name: "media-playback-stop-symbolic"@,
            css_class: "dim-label"@,
            icon_visible: false,
            status_button_visible: true,
            status_button: Some(("Start"@, true)),
            console_button_visible: None,
            status_label_visible: false,
            control_area_visible: false,
            stop_button: None,
            metrics_cleared: true,
        },
        VMStatus::Running { .. } => CardViewSpec {
            status_text: "Running"@,
            icon_name: "media-playback-start-symbolic"@,
            css_class: "success"@,
            icon_visible: false,
            status_button_visible: false,
            status_button: None,
            console_button_visible: Some(true),
            status_label_visible: false,
            control_area_visible: true,
            stop_button: Some(("Stop VM"@, true)),
            metrics_cleared: false,
        },
        VMStatus::Starting => CardViewSpec {
            status_text: "Starting"@,
            icon_name: "media-playback-start-symbolic"@,
            css_class: "warning"@,
            icon_visible: true,
            status_button_visible: true,
            status_button: Some(("Starting..."@, false)),
            console_button_visible: Some(false),
            status_label_visible: false,
            control_area_visible: false,
            stop_button: None,
            metrics_cleared: true,
        },
        VMStatus::Stopping => CardViewSpec {
            status_text: "Stopping"@,
            icon_name: "media-playback-stop-symbolic"@,
            css_class: "warning"@,
            icon_visible: true,
            status_button_visible: false,
            status_button: None,
            console_button_visible: Some(false),
            status_label_visible: true,
            control_area_visible: true,
            stop_button: Some(("Stopping..."@, false)),
            metrics_cleared: true,
        },
        VMStatus::Error(_) => CardViewSpec {
            status_text: "Error"@,
            icon_name: "dialog-error-symbolic"@,
            css_class: "error"@,
            icon_visible: true,
            status_button_visible: true,
            status_button: Some(("Retry"@, true)),
            console_button_visible: Some(false),
            status_label_visible: false,
            control_area_visible: false,
            stop_button: None,
            metrics_cleared: true,
        },
    }
}

/// How the card shows a status.
pub fn card_view(status: &VMStatus) -> (v: CardView)
    ensures
        card_view_spec(v) == card_for(*status),
{
    match status {
        VMStatus::Stopped => CardView {
            status_text: "Stopped",
            icon_name: "media-playback-stop-symbolic",
            css_class: "dim-label",
            icon_visible: false,
            status_button_visible: true,
            status_button: Some(("Start", true)),
            console_button_visible: None,
            status_label_visible: false,
            control_area_visible: false,
            stop_button: None,
            metrics_cleared: true,
        },
        VMStatus::Running { .. } => CardView {
            status_text: "Running",
            icon_name: "media-playback-start-symbolic",
            css_class: "success",
            icon_visible: false,
            status_button_visible: false,
            status_button: None,
            console_button_visible: Some(true),
            status_label_visible: false,
            control_area_visible: true,
            stop_button: Some(("Stop VM", true)),
            metrics_cleared: false,
        },
        VMStatus::Starting => CardView {
            status_text: "Starting",
            icon_name: "media-playback-start-symbolic",
            css_class: "warning",
            icon_visible: true,
            status_button_visible: true,
            status_button: Some(("Starting...", false)),
            console_button_visible: Some(false),
            status_label_visible: false,
            control_area_visible: false,
            stop_button: None,
            metrics_cleared: true,
        },
        VMStatus::Stopping => CardView {
            status_text: "Stopping",
            icon_name: "media-playback-stop-symbolic",
            css_class: "warning",
            icon_visible: true,
            status_button_visible: false,
            status_button: None,
            console_button_visible: Some(false),
            status_label_visible: true,
            control_area_visible: true,
            stop_button: Some(("Stopping...", false)),
            metrics_cleared: true,
        },
        VMStatus::Error(_) => CardView {
            status_text: "Error",
            icon_name: "dialog-error-symbolic",
            css_class: "error",
            icon_visible: true,
            status_button_visible: true,
            status_button: Some(("Retry", true)),
            console_button_visible: Some(false),
            status_label_visible: false,
            control_area_visible: false,
            stop_button: None,
            metrics_cleared: true,
        },
    }
}

/// What a click on a card does.
#[derive(Debug, Clone, Copy, PartialEq, Eq)]
pub enum CardClick {
    /// Start the VM, then open its console once it runs.
    StartAndOpenConsole,
    OpenConsole,
    Nothing,
}

/// A stopped VM is started, a running one shows its console; a click on
/// any other does nothing.
pub fn click_action(status: &VMStatus) -> (r: CardClick)
    ensures
        r == (match *status {
            VMStatus::Stopped => CardClick::StartAndOpenConsole,
            VMStatus::Running { .. } => CardClick::OpenConsole,
            _ => CardClick::Nothing,
        }),
{
    match status {
        VMStatus::Stopped => CardClick::StartAndOpenConsole,
        VMStatus::Running { .. } => CardClick::OpenConsole,
        _ => CardClick::Nothing,
    }
}

/// What a status change asks of the process monitor.
#[derive(Debug, Clone, Copy, PartialEq, Eq)]
pub enum MonitorAction {
    /// Watch the QEMU process with this id.
    Register(u32),
    /// Stop watching the VM.
    Unregister,
    Keep,
}

/// Two statuses are of the same kind (their variant).
pub open spec fn same_kind(a: VMStatus, b: VMStatus) -> bool {
    match (a, b) {
        (VMStatus::Running { .. }, VMStatus::Running { .. }) => true,
        (VMStatus::Stopped, VMStatus::Stopped) => true,
        (VMStatus::Starting, VMStatus::Starting) => true,
        (VMStatus::Stopping, VMStatus::Stopping) => true,
        (VMStatus::Error(_), VMStatus::Error(_)) => true,
        _ => false,
    }
}

/// A VM that came up from stopped or starting is registered with its
/// process id; one that went down from running is unregistered; nothing
/// else changes the monitor.
pub open spec fn monitor_action(old: VMStatus, new: VMStatus) -> MonitorAction {
    if same_kind(old, new) {
        MonitorAction::Keep
    } else {
        match (old, new) {
            (VMStatus::Stopped, VMStatus::Running { pid }) => MonitorAction::Register(pid),
            (VMStatus::Starting, VMStatus::Running { pid }) => MonitorAction::Register(pid),
            (VMStatus::Running { .. }, VMStatus::Stopped) => MonitorAction::Unregister,
            _ => MonitorAction::Keep,
        }
    }
}

/// Whether the status changed kind, and what the change asks of the
/// process monitor.
pub fn status_transition(old: &VMStatus, new: &VMStatus) -> (r: (bool, MonitorAction))
    ensures
        r.0 == !same_kind(*old, *new),
        r.1 == monitor_action(*old, *new),
{
    match (old, new) {
        (VMStatus::Running { .. }, VMStatus::Running { .. }) => (false, MonitorAction::Keep),
        (VMStatus::Stopped, VMStatus::Stopped) => (false, MonitorAction::Keep),
        (VMStatus::Starting, VMStatus::Starting) => (false, MonitorAction::Keep),
        (VMStatus::Stopping, VMStatus::Stopping) => (false, MonitorAction::Keep),
        (VMStatus::Error(_), VMStatus::Error(_)) => (false, MonitorAction::Keep),
        (VMStatus::Stopped, VMStatus::Running { pid }) => (true, MonitorAction::Register(*pid)),
        (VMStatus::Starting, VMStatus::Running { pid }) => (true, MonitorAction::Register(*pid)),
        (VMStatus::Running { .. }, VMStatus::Stopped) => (true, MonitorAction::Unregister),
        _ => (true, MonitorAction::Keep),
    }
}

} // verus!
