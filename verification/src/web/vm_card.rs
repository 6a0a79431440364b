//! What a VM card of the web front end decides: whether a click opens the
//! console, how its status and buttons read, and the steps of a deletion.
use vstd::prelude::*;

use crate::web::models::VMStatus;

verus! {

/// Whether a click on the card opens the VM's console: only while it runs.
pub fn card_opens_console(status: &VMStatus) -> (b: bool)
    ensures
        b == (*status is Running),
{
    match status {
        VMStatus::Running { .. } => true,
        _ => false,
    }
}

/// The card's class: a pointer over a running VM's card, which a click
/// opens.
pub fn card_class(running: bool) -> (r: &'static str)
    ensures
        r@ == (if running {
            "card-macos cursor-pointer flex flex-col w-full max-w-2xl"@
        } else {
            "card-macos flex flex-col w-full max-w-2xl"@
        }),
{
    if running {
        "card-macos cursor-pointer flex flex-col w-full max-w-2xl"
    } else {
        "card-macos flex flex-col w-full max-w-2xl"
    }
}

/// The colours of the badge that shows a status.
pub open spec fn status_badge(s: VMStatus) -> Seq<char> {
    match s {
        VMStatus::Running { .. } => "bg-green-500/30 text-green-200 border border-green-400/50"@,
        VMStatus::Stopped => "bg-gray-500/30 text-gray-200 border border-gray-400/50"@,
        VMStatus::Starting => "bg-yellow-500/30 text-yellow-200 border border-yellow-400/50"@,
        VMStatus::Stopping => "bg-orange-500/30 text-orange-200 border border-orange-400/50"@,
        VMStatus::Error(_) => "bg-red-500/30 text-red-200 border border-red-400/50"@,
    }
}

/// The class of the badge that shows a VM's status on its card.
pub fn status_badge_class(status: &VMStatus) -> (r: &'static str)
    ensures
        r@ == status_badge(*status),
{
    match status {
        VMStatus::Running { .. } => "bg-green-500/30 text-green-200 border border-green-400/50",
        VMStatus::Stopped => "bg-gray-500/30 text-gray-200 border border-gray-400/50",
        VMStatus::Starting => "bg-yellow-500/30 text-yellow-200 border border-yellow-400/50",
        VMStatus::Stopping => "bg-orange-500/30 text-orange-200 border border-orange-400/50",
        VMStatus::Error(_) => "bg-red-500/30 text-red-200 border border-red-400/50",
    }
}

/// The label of the button that starts or stops the VM: `Stop` on a
/// running VM and `Start` on another, each in its `...ing` form while a
/// request is under way.
pub fn state_button_label(running: bool, changing: bool) -> (r: &'static str)
    ensures
        r@ == (if running {
            if changing {
                "Stopping..."@
            } else {
                "Stop"@
            }
        } else if changing {
            "Starting..."@
        } else {
            "Start"@
        }),
{
    if running {
        if changing {
            "Stopping..."
        } else {
            "Stop"
        }
    } else if changing {
        "Starting..."
    } else {
        "Start"
    }
}

/// Whether the card offers its console: the VM runs and the server said
/// that its display can be reached.
pub fn console_offered(running: bool, supported: bool) -> (b: bool)
    ensures
        b == (running && supported),
{
    running && supported
}

/// Whether the console can be reached, from the server's answer to the
/// question: yes only on a clear yes; an error counts as no.
pub fn console_support(answer: Result<bool, String>) -> (b: bool)
    ensures
        b == (answer matches Ok(true)),
{
    match answer {
        Ok(s) => s,
        Err(_) => false,
    }
}

/// The label of the button that shows or hides the console in place.
pub fn console_toggle_label(shown: bool) -> (r: &'static str)
    ensures
        r@ == (if shown {
            "Hide Console"@
        } else {
            "Show Console"@
        }),
{
    if shown {
        "Hide Console"
    } else {
        "Show Console"
    }
}

/// What happens on the way to deleting a VM.
#[derive(Debug, Clone, Copy, PartialEq, Eq)]
pub enum DeleteEvent {
    /// The Delete button was pressed.
    Request,
    /// The confirmation was dismissed.
    Cancel,
    /// The deletion was confirmed.
    Confirm,
    /// The server answered the deletion, `true` for success.
    ServerReplied(bool),
}

/// What the card does after an event of a deletion.
#[derive(Debug, Clone, Copy, PartialEq, Eq)]
pub enum DeleteAction {
    Nothing,
    /// Ask the server to delete the VM.
    CallServer,
    /// The VM is gone: take its card away.
    RemoveCard,
}

/// The next state of the confirmation (`true` while it is shown) and the
/// action after `event`.
pub open spec fn delete_next(confirming: bool, event: DeleteEvent) -> (bool, DeleteAction) {
    match event {
        DeleteEvent::Request => (true, DeleteAction::Nothing),
        DeleteEvent::Cancel => (false, DeleteAction::Nothing),
        DeleteEvent::Confirm => if confirming {
            (false, DeleteAction::CallServer)
        } else {
            (false, DeleteAction::Nothing)
        },
        DeleteEvent::ServerReplied(ok) => (
            confirming,
            if ok {
                DeleteAction::RemoveCard
            } else {
                DeleteAction::Nothing
            },
        ),
    }
}

/// One step of a deletion: a press asks for confirmation, a dismissal
/// drops it, a confirmation while it is asked closes it and calls the
/// server, and only the server's success takes the card away.
pub fn delete_step(confirming: bool, event: DeleteEvent) -> (r: (bool, DeleteAction))
    ensures
        r == delete_next(confirming, event),
        r.1 == DeleteAction::CallServer ==> confirming && event == DeleteEvent::Confirm,
        r.1 == DeleteAction::RemoveCard ==> event == DeleteEvent::ServerReplied(true),
{
    match event {
        DeleteEvent::Request => (true, DeleteAction::Nothing),
        DeleteEvent::Cancel => (false, DeleteAction::Nothing),
        DeleteEvent::Confirm => if confirming {
            (false, DeleteAction::CallServer)
        } else {
            (false, DeleteAction::Nothing)
        },
        DeleteEvent::ServerReplied(ok) => (
            confirming,
            if ok {
                DeleteAction::RemoveCard
            } else {
                DeleteAction::Nothing
            },
        ),
    }
}

/// The colours of the status badge in the detail view of a VM.
pub open spec fn detail_badge(s: VMStatus) -> Seq<char> {
    match s {
        VMStatus::Running { .. } => "bg-macos-green-500 text-white"@,
        VMStatus::Stopped => "bg-macos-gray-300 text-macos-gray-700"@,
        VMStatus::Starting => "bg-macos-yellow-500 text-white"@,
        VMStatus::Stopping => "bg-macos-orange-500 text-white"@,
        VMStatus::Error(_) => "bg-macos-red-500 text-white"@,
    }
}

/// The class of the status badge in the detail view of a VM.
pub fn detail_badge_class(status: &VMStatus) -> (r: &'static str)
    ensures
        r@ == detail_badge(*status),
{
    match status {
        VMStatus::Running { .. } => "bg-macos-green-500 text-white",
        VMStatus::Stopped => "bg-macos-gray-300 text-macos-gray-700",
        VMStatus::Starting => "bg-macos-yellow-500 text-white",
        VMStatus::Stopping => "bg-macos-orange-500 text-white",
        VMStatus::Error(_) => "bg-macos-red-500 text-white",
    }
}

/// What happens to the button that starts or stops a VM.
#[derive(Debug, Clone, Copy, PartialEq, Eq)]
pub enum StateEvent {
    /// The button was pressed.
    Pressed,
    /// The server call returned and the short wait after it ended.
    CallEnded,
}

/// What the card does after such an event.
#[derive(Debug, Clone, Copy, PartialEq, Eq)]
pub enum StateAction {
    Nothing,
    /// Ask the server to start the VM.
    CallStart,
    /// Ask the server to stop the VM.
    CallStop,
    /// Tell the view that the VM's status changed.
    NotifyStatusChange,
}

/// The next value of the busy flag and the action after an event.
pub open spec fn state_next(running: bool, changing: bool, event: StateEvent) -> (bool, StateAction) {
    match event {
        StateEvent::Pressed => if changing {
            (true, StateAction::Nothing)
        } else if running {
            (true, StateAction::CallStop)
        } else {
            (true, StateAction::CallStart)
        },
        StateEvent::CallEnded => (false, StateAction::NotifyStatusChange),
    }
}

/// One step of starting or stopping a VM from its card: a press while no
/// request is under way marks the card busy and calls the server (stop for
/// a running VM, start otherwise); the button is disabled while busy; when
/// the call has ended the card is free again and the view is told, whatever
/// the server answered.
pub fn state_step(running: bool, changing: bool, event: StateEvent) -> (r: (bool, StateAction))
    ensures
        r == state_next(running, changing, event),
{
    match event {
        StateEvent::Pressed => if changing {
            (true, StateAction::Nothing)
        } else if running {
            (true, StateAction::CallStop)
        } else {
            (true, StateAction::CallStart)
        },
        StateEvent::CallEnded => (false, StateAction::NotifyStatusChange),
    }
}

} // verus!
