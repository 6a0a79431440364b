//! What the console views of the web front end compute: where a viewer
//! connects, the page that embeds the SPICE client, and how the state of a
//! console session is followed and shown.
use vstd::prelude::*;

use crate::text::{
    chars_of, concat, contains, decimal, find_from, first_from, lemma_split_from_nonempty,
    parse_u16, parse_u16_str, push_decimal, push_str, split_char, split_on_char, str_contains,
    string_from_range, views,
};
use crate::web::models::ConsoleInfo;

verus! {

/// The piece `str::split("://").nth(1)` gives: the text after the first
/// `://` up to the next one, or `None` when there is no `://`.
pub open spec fn after_scheme(url: Seq<char>) -> Option<Seq<char>> {
    match first_from(url, "://"@, 0) {
        None => None,
        Some(p) => match first_from(url, "://"@, p + 3) {
            Some(q) => Some(url.subrange(p + 3, q)),
            None => Some(url.subrange(p + 3, url.len() as int)),
        },
    }
}

/// The host and port of a WebSocket URL: after the scheme when there is
/// one, the host up to the first `:` and the port the next piece read as a
/// 16-bit number, 8080 when there is none or it is not a number.
pub open spec fn endpoint_of(url: Seq<char>) -> (Seq<char>, u16) {
    let rest = match after_scheme(url) {
        Some(r) => r,
        None => url,
    };
    let pieces = split_char(rest, ':');
    (
        pieces[0],
        if pieces.len() > 1 {
            match parse_u16(pieces[1]) {
                Some(p) => p,
                None => 8080,
            }
        } else {
            8080
        },
    )
}

/// Where a console viewer connects: `localhost:8080` until a session is
/// known, else the endpoint of its WebSocket URL.
pub open spec fn viewer_endpoint_of(url: Option<Seq<char>>) -> (Seq<char>, u16) {
    match url {
        None => ("localhost"@, 8080u16),
        Some(u) => endpoint_of(u),
    }
}

/// The text of `url` after its scheme (the piece `split("://").nth(1)`
/// gives), if it has one.
fn scheme_rest(url: &str) -> (r: Option<String>)
    ensures
        match r {
            Some(s) => after_scheme(url@) == Some(s@),
            None => after_scheme(url@).is_none(),
        },
{
    let v = chars_of(url);
    let sep = chars_of("://");
    proof {
        reveal_strlit("://");
    }
    assert(sep@.len() == 3);
    let n = v.len();
    match find_from(&v, &sep, 0) {
        Some(p) => {
            let start = p + 3;
            match find_from(&v, &sep, start) {
                Some(q) => Some(string_from_range(&v, start, q)),
                None => Some(string_from_range(&v, start, n)),
            }
        },
        None => None,
    }
}

/// Where a console viewer connects for a session's WebSocket URL.
pub fn viewer_endpoint(websocket_url: Option<&str>) -> (r: (String, u16))
    ensures
        (r.0@, r.1) == viewer_endpoint_of(
            match websocket_url {
                Some(u) => Some(u@),
                None => None,
            },
        ),
{
    match websocket_url {
        None => ("localhost".to_owned(), 8080),
        Some(url) => {
            let rest = match scheme_rest(url) {
                Some(r) => r,
                None => url.to_owned(),
            };
            let pieces = split_on_char(rest.as_str(), ':');
            proof {
                lemma_split_from_nonempty(rest@, ':', 0, 0);
                assert(views(pieces@)[0] == pieces@[0]@);
            }
            let host = pieces[0].clone();
            let port = if pieces.len() > 1 {
                assert(views(pieces@)[1] == pieces@[1]@);
                match parse_u16_str(pieces[1].as_str()) {
                    Some(p) => p,
                    None => 8080,
                }
            } else {
                8080
            };
            (host, port)
        },
    }
}

/// The host the embedded SPICE client is given: after the scheme, up to
/// the first `:`; `localhost` for a URL without a scheme.
pub open spec fn frame_host(url: Seq<char>) -> Seq<char> {
    match after_scheme(url) {
        Some(r) => split_char(r, ':')[0],
        None => "localhost"@,
    }
}

/// The port the embedded SPICE client is given: the last `:` piece of the
/// URL read as a 16-bit number, 6080 when the URL has no `:` or the piece
/// is not a number.
pub open spec fn frame_port(url: Seq<char>) -> u16 {
    if contains(url, ":"@) {
        match parse_u16(split_char(url, ':').last()) {
            Some(p) => p,
            None => 6080,
        }
    } else {
        6080
    }
}

/// The address of the page that embeds the SPICE client for a session.
pub fn console_frame_url(info: &ConsoleInfo) -> (r: String)
    ensures
        r@ == "/assets/spice-client/spice-console.html?host="@ + frame_host(info.websocket_url@)
            + "&port="@ + decimal(frame_port(info.websocket_url@) as nat) + "&token="@
            + info.auth_token@,
{
    let url = info.websocket_url.as_str();
    let host = match scheme_rest(url) {
        Some(rest) => {
            let pieces = split_on_char(rest.as_str(), ':');
            proof {
                lemma_split_from_nonempty(rest@, ':', 0, 0);
                assert(views(pieces@)[0] == pieces@[0]@);
            }
            pieces[0].clone()
        },
        None => "localhost".to_owned(),
    };
    let port: u16 = if str_contains(url, ":") {
        let pieces = split_on_char(url, ':');
        proof {
            lemma_split_from_nonempty(url@, ':', 0, 0);
            assert(views(pieces@).last() == pieces@[pieces@.len() - 1]@);
        }
        match parse_u16_str(pieces[pieces.len() - 1].as_str()) {
            Some(p) => p,
            None => 6080,
        }
    } else {
        6080
    };
    let mut r = concat("/assets/spice-client/spice-console.html?host=", host.as_str());
    push_str(&mut r, "&port=");
    push_decimal(&mut r, port as u64);
    push_str(&mut r, "&token=");
    push_str(&mut r, info.auth_token.as_str());
    r
}

/// How a session state is shown: connected, on the way, or neither.
#[derive(Debug, Clone, Copy, PartialEq, Eq)]
pub enum StatusTone {
    Connected,
    Pending,
    Down,
}

/// `connected` is shown as connected, `connecting` and `authenticating`
/// as on the way, any other state as down.
pub fn status_tone(status: &str) -> (r: StatusTone)
    ensures
        r == (if status@ == "connected"@ {
            StatusTone::Connected
        } else if status@ == "connecting"@ || status@ == "authenticating"@ {
            StatusTone::Pending
        } else {
            StatusTone::Down
        }),
{
    if crate::text::same_text(status, "connected") {
        StatusTone::Connected
    } else if crate::text::same_text(status, "connecting") || crate::text::same_text(
        status,
        "authenticating",
    ) {
        StatusTone::Pending
    } else {
        StatusTone::Down
    }
}

/// One check of a session's state, asked every two seconds: a reported
/// state is shown and the checks go on; a session that no longer exists
/// shows `disconnected` and ends them; an error ends them, the state left
/// as it was. The state to show (if it changes) and whether to go on.
pub fn status_poll_step(answer: Result<Option<String>, String>) -> (r: (Option<String>, bool))
    ensures
        match answer {
            Ok(Some(s)) => r.0 == Some(s) && r.1,
            Ok(None) => (r.0 matches Some(t) && t@ == "disconnected"@) && !r.1,
            Err(_) => r.0.is_none() && !r.1,
        },
{
    match answer {
        Ok(Some(s)) => (Some(s), true),
        Ok(None) => (Some("disconnected".to_owned()), false),
        Err(_) => (None, false),
    }
}

} // verus!
