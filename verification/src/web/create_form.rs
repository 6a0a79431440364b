//! The form that creates a VM: when it lets the user go on, the request it
//! sends, and how it follows the creation's log until the end.
use vstd::prelude::*;

use crate::text::{push_decimal, push_signed_decimal, push_str, decimal, signed_decimal, starts_with, views};
use crate::web::edit_form::{cores_entered, ram_text};
use crate::web::models::CreateVMRequest;

verus! {

/// Whether the first step may be left: a system and a version are picked,
/// and an edition too when the system offers more than one.
pub fn can_go_next(os: &str, version: &str, editions: &Vec<String>, edition: &str) -> (b: bool)
    ensures
        b == !(os@.len() == 0 || version@.len() == 0 || (editions.len() > 1 && edition@.len()
            == 0)),
{
    !(os.is_empty() || version.is_empty() || (editions.len() > 1 && edition.is_empty()))
}

/// Whether the VM may be created: no creation is under way, and cores,
/// gigabytes of RAM and gigabytes of disk are each at least one.
pub fn can_create(creating: bool, cpu_cores: i32, ram_gb: i32, disk_gb: i32) -> (b: bool)
    ensures
        b == !(creating || cpu_cores < 1 || ram_gb < 1 || disk_gb < 1),
{
    !(creating || cpu_cores < 1 || ram_gb < 1 || disk_gb < 1)
}

/// The text of an optional form field: `None` when it is left empty.
pub open spec fn optional_field(s: Seq<char>) -> Option<Seq<char>> {
    if s.len() == 0 {
        None
    } else {
        Some(s)
    }
}

fn optional(s: String) -> (r: Option<String>)
    ensures
        match r {
            Some(t) => optional_field(s@) == Some(t@),
            None => optional_field(s@).is_none(),
        },
{
    if s.as_str().is_empty() {
        None
    } else {
        Some(s)
    }
}

/// The request the form sends: the picked system and version, the edition
/// and name when given, RAM and disk as gigabytes followed by `G`, and the
/// core count taken as an unsigned number. The RAM is turned into
/// megabytes and back, which needs its megabytes to fit an `i32`.
pub fn create_request(
    os: String,
    version: String,
    edition: String,
    name: String,
    ram_gb: i32,
    disk_gb: i32,
    cpu_cores: i32,
) -> (r: CreateVMRequest)
    requires
        i32::MIN <= ram_gb * 1024 <= i32::MAX,
    ensures
        r.os@ == os@,
        r.version@ == version@,
        (match r.edition {
            Some(e) => optional_field(edition@) == Some(e@),
            None => optional_field(edition@).is_none(),
        }),
        (match r.name {
            Some(n) => optional_field(name@) == Some(n@),
            None => optional_field(name@).is_none(),
        }),
        r.ram matches Some(t) && t@ == ram_text(ram_gb),
        r.disk_size matches Some(t) && t@ == signed_decimal(disk_gb as int) + "G"@,
        r.cpu_cores == Some(cores_entered(cpu_cores)),
{
    let ram_mb: i32 = ram_gb * 1024;
    let gb: i32 = ram_mb / 1024;
    assert(gb == ram_gb);
    let mut ram = String::new();
    push_signed_decimal(&mut ram, gb as i64);
    push_str(&mut ram, "G");
    let mut disk = String::new();
    push_signed_decimal(&mut disk, disk_gb as i64);
    push_str(&mut disk, "G");
    let cores: u32 = if cpu_cores >= 0 {
        cpu_cores as u32
    } else {
        (cpu_cores as i64 + 0x1_0000_0000i64) as u32
    };
    CreateVMRequest {
        os,
        version,
        edition: optional(edition),
        name: optional(name),
        ram: Some(ram),
        disk_size: Some(disk),
        cpu_cores: Some(cores),
    }
}

/// Where following a creation stands after one poll of its log.
#[derive(Debug, Clone, Copy, PartialEq, Eq)]
pub enum CreationPoll {
    /// Not finished: poll again.
    Continue,
    /// The log ended with its last line; `true` when the creation worked.
    /// The log is cleaned up.
    Done(bool),
    /// The log could not be read: the creation is no longer followed.
    Failed,
}

/// The line a log holds when the server knows no such creation.
pub open spec fn not_found_line() -> Seq<char> {
    "Creation process not found"@
}

/// Whether a log line ends a creation: it starts with a check mark or a
/// cross.
pub open spec fn final_line(l: Seq<char>) -> bool {
    starts_with(l, seq!['✓']) || starts_with(l, seq!['✗'])
}

/// The console and the outcome after a poll that read `logs`: a note of
/// how many lines came is added, then a log that is not empty and does not
/// start with the not-found line replaces the console, and otherwise a note
/// that no log was found is added while the console holds fewer than six
/// lines. A last line that ends the creation ends the polling.
pub open spec fn after_logs(console: Seq<Seq<char>>, id: Seq<char>, logs: Seq<Seq<char>>) -> (
    Seq<Seq<char>>,
    CreationPoll,
) {
    let noted = console.push("Polled "@ + decimal(logs.len()) + " log lines"@);
    let shown = if logs.len() > 0 && logs[0] != not_found_line() {
        logs
    } else if noted.len() < 6 {
        noted.push("No logs found for ID: "@ + id)
    } else {
        noted
    };
    (
        shown,
        if logs.len() > 0 && final_line(logs.last()) {
            CreationPoll::Done(starts_with(logs.last(), seq!['✓']))
        } else {
            CreationPoll::Continue
        },
    )
}

/// The console and the outcome after a poll whose reading failed with
/// `error`.
pub open spec fn after_poll_error(console: Seq<Seq<char>>, error: Seq<char>) -> (
    Seq<Seq<char>>,
    CreationPoll,
) {
    (console.push("✗ Error polling logs: "@ + error), CreationPoll::Failed)
}

fn first_char_is(s: &str, c: char) -> (b: bool)
    ensures
        b == starts_with(s@, seq![c]),
{
    let v = crate::text::chars_of(s);
    if v.len() == 0 {
        false
    } else {
        assert(v@.subrange(0, 1) =~= seq![v@[0]]);
        let b = v[0] == c;
        proof {
            if !b {
                assert(v@.subrange(0, 1)[0] != seq![c][0]);
            }
        }
        b
    }
}

/// One poll of a creation's log, `console` being what the form shows and
/// `id` the creation's id.
pub fn creation_poll_step(console: Vec<String>, id: &str, polled: Result<Vec<String>, String>) -> (r: (
    Vec<String>,
    CreationPoll,
))
    ensures
        (views(r.0@), r.1) == match polled {
            Ok(logs) => after_logs(views(console@), id@, views(logs@)),
            Err(e) => after_poll_error(views(console@), e@),
        },
{
    match polled {
        Err(e) => {
            let mut out = console;
            let mut line = String::new();
            push_str(&mut line, "✗ Error polling logs: ");
            push_str(&mut line, e.as_str());
            let ghost before = views(out@);
            out.push(line);
            assert(views(out@) == before.push(line@));
            (out, CreationPoll::Failed)
        },
        Ok(logs) => {
            let mut out = console;
            let mut note = String::new();
            push_str(&mut note, "Polled ");
            push_decimal(&mut note, logs.len() as u64);
            push_str(&mut note, " log lines");
            let ghost before = views(out@);
            out.push(note);
            assert(views(out@) == before.push(note@));
            let ghost noted = views(out@);
            let replace = logs.len() > 0 && !crate::text::same_text(
                logs[0].as_str(),
                "Creation process not found",
            );
            proof {
                if logs.len() > 0 {
                    assert(views(logs@)[0] == logs@[0]@);
                }
            }
            let outcome = if logs.len() > 0 {
                let last = logs[logs.len() - 1].as_str();
                assert(views(logs@).last() == logs@[logs.len() - 1]@);
                let ok = first_char_is(last, '✓');
                let bad = first_char_is(last, '✗');
                if ok || bad {
                    CreationPoll::Done(ok)
                } else {
                    CreationPoll::Continue
                }
            } else {
                CreationPoll::Continue
            };
            if replace {
                (logs, outcome)
            } else {
                if out.len() < 6 {
                    let mut line = String::new();
                    push_str(&mut line, "No logs found for ID: ");
                    push_str(&mut line, id);
                    out.push(line);
                    assert(views(out@) == noted.push(line@));
                }
                (out, outcome)
            }
        },
    }
}

} // verus!
