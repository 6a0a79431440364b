//! What the VNC viewer of the web front end computes around its connection:
//! the WebSocket address, the canvas it draws on, and how its state reads.
use vstd::prelude::*;

use crate::text::{decimal, push_decimal, push_str, same_text};

verus! {

/// The state of a viewer's connection.
#[derive(Debug, Clone, Copy, PartialEq, Eq)]
pub enum VncConnectionState {
    Disconnected,
    Connecting,
    Connected,
    Failed,
}

/// The WebSocket scheme for a page served with `page_protocol`: `wss` under
/// `https:`, `ws` otherwise.
pub open spec fn ws_scheme(page_protocol: Seq<char>) -> Seq<char> {
    if page_protocol == "https:"@ {
        "wss"@
    } else {
        "ws"@
    }
}

/// The address the viewer connects to: `<scheme>://<host>:<port>/`.
pub fn vnc_ws_url(page_protocol: &str, host: &str, port: u16) -> (r: String)
    ensures
        r@ == ws_scheme(page_protocol@) + "://"@ + host@ + ":"@ + decimal(port as nat) + "/"@,
{
    let mut r = String::new();
    if same_text(page_protocol, "https:") {
        push_str(&mut r, "wss");
    } else {
        push_str(&mut r, "ws");
    }
    push_str(&mut r, "://");
    push_str(&mut r, host);
    push_str(&mut r, ":");
    push_decimal(&mut r, port as u64);
    push_str(&mut r, "/");
    r
}

/// The id of the canvas a viewer for `port` draws on.
pub fn vnc_canvas_id(port: u16) -> (r: String)
    ensures
        r@ == "vnc-canvas-"@ + decimal(port as nat),
{
    let mut r = String::new();
    push_str(&mut r, "vnc-canvas-");
    push_decimal(&mut r, port as u64);
    r
}

/// The word shown for a connection state.
pub open spec fn state_word(s: VncConnectionState) -> Seq<char> {
    match s {
        VncConnectionState::Connected => "Connected"@,
        VncConnectionState::Connecting => "Connecting"@,
        VncConnectionState::Failed => "Failed"@,
        VncConnectionState::Disconnected => "Disconnected"@,
    }
}

/// The label of a connection state.
pub fn connection_label(state: VncConnectionState) -> (r: &'static str)
    ensures
        r@ == state_word(state),
{
    match state {
        VncConnectionState::Connected => "Connected",
        VncConnectionState::Connecting => "Connecting",
        VncConnectionState::Failed => "Failed",
        VncConnectionState::Disconnected => "Disconnected",
    }
}

/// The dot that marks a connection state.
pub open spec fn state_dot(s: VncConnectionState) -> Seq<char> {
    match s {
        VncConnectionState::Connected => "w-2 h-2 bg-green-500 rounded-full"@,
        VncConnectionState::Connecting => "w-2 h-2 bg-yellow-500 rounded-full animate-pulse"@,
        VncConnectionState::Failed => "w-2 h-2 bg-red-500 rounded-full"@,
        VncConnectionState::Disconnected => "w-2 h-2 bg-gray-500 rounded-full"@,
    }
}

/// The class of the dot that marks a connection state.
pub fn connection_dot_class(state: VncConnectionState) -> (r: &'static str)
    ensures
        r@ == state_dot(state),
{
    match state {
        VncConnectionState::Connected => "w-2 h-2 bg-green-500 rounded-full",
        VncConnectionState::Connecting => "w-2 h-2 bg-yellow-500 rounded-full animate-pulse",
        VncConnectionState::Failed => "w-2 h-2 bg-red-500 rounded-full",
        VncConnectionState::Disconnected => "w-2 h-2 bg-gray-500 rounded-full",
    }
}

/// The state and message after a connection attempt: connected, or failed
/// with `Failed to connect: <error>`.
pub fn after_connect(result: Result<(), String>) -> (r: (VncConnectionState, Option<String>))
    ensures
        match result {
            Ok(_) => r.0 == VncConnectionState::Connected && r.1.is_none(),
            Err(e) => r.0 == VncConnectionState::Failed && (r.1 matches Some(m) && m@
                == "Failed to connect: "@ + e@),
        },
{
    match result {
        Ok(_) => (VncConnectionState::Connected, None),
        Err(e) => {
            let mut m = String::new();
            push_str(&mut m, "Failed to connect: ");
            push_str(&mut m, e.as_str());
            (VncConnectionState::Failed, Some(m))
        },
    }
}

} // verus!
