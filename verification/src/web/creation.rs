//! VM creation as the web server runs it: the name and id of a creation,
//! its progress log, and the messages of a failed creation.
use vstd::prelude::*;

use crate::services::session_table::SessionTable;
use crate::text::{concat, contains, decimal, push_decimal, push_signed_decimal, push_str, signed_decimal, str_contains, views};
use crate::web::models::CreateVMRequest;

verus! {

/// The name of the VM a request creates: the requested one, or
/// `<os>-<version>`.
pub open spec fn creation_name(name: Option<Seq<char>>, os: Seq<char>, version: Seq<char>) -> Seq<char> {
    match name {
        Some(n) => n,
        None => os + "-"@ + version,
    }
}

/// The name of the VM a request creates.
pub fn creation_vm_name(request: &CreateVMRequest) -> (r: String)
    ensures
        r@ == creation_name(
            match request.name {
                Some(n) => Some(n@),
                None => None,
            },
            request.os@,
            request.version@,
        ),
{
    match &request.name {
        Some(n) => n.clone(),
        None => {
            let mut r = concat(request.os.as_str(), "-");
            push_str(&mut r, request.version.as_str());
            r
        },
    }
}

/// `<vm_name>_<seconds since the epoch>`.
pub fn creation_id(vm_name: &str, started_secs: u64) -> (r: String)
    ensures
        r@ == vm_name@ + "_"@ + decimal(started_secs as nat),
{
    let mut r = concat(vm_name, "_");
    push_decimal(&mut r, started_secs);
    r
}

/// The message for a failed creation: a hint to install quickemu when the
/// error says quickget or a file is missing, else the error itself.
pub open spec fn create_failure(error: Seq<char>) -> Seq<char> {
    if contains(error, "No such file"@) || contains(error, "quickget"@) {
        "VM creation failed: quickget not found. Please install quickemu to create VMs."@
    } else {
        "Failed to create VM: "@ + error
    }
}

/// The message for a failed creation.
pub fn create_failure_message(error: &str) -> (r: String)
    ensures
        r@ == create_failure(error@),
{
    if str_contains(error, "No such file") || str_contains(error, "quickget") {
        "VM creation failed: quickget not found. Please install quickemu to create VMs.".to_owned()
    } else {
        concat("Failed to create VM: ", error)
    }
}

/// How a creation ended.
pub enum CreationOutcome {
    /// quickget succeeded; `spice` tells whether the SPICE display could
    /// be set, or why not.
    Succeeded { spice: Result<(), String> },
    /// quickget exited unsuccessfully, with its exit code if it had one.
    Failed { code: Option<i32> },
    /// Waiting for quickget failed.
    ProcessError { error: String },
}

/// The Debug form of an optional exit code.
pub open spec fn code_text(code: Option<i32>) -> Seq<char> {
    match code {
        Some(c) => "Some("@ + signed_decimal(c as int) + ")"@,
        None => "None"@,
    }
}

/// The lines a finished creation adds to its log.
pub open spec fn outcome_lines(o: CreationOutcome) -> Seq<Seq<char>> {
    match o {
        CreationOutcome::Succeeded { spice } => seq![
            "✓ VM created successfully!"@,
            match spice {
                Ok(_) => "✓ SPICE display protocol configured"@,
                Err(e) => "⚠ Warning: Could not set SPICE display: "@ + e@,
            },
        ],
        CreationOutcome::Failed { code } => seq![
            "✗ quickget failed with exit code: "@ + code_text(code),
        ],
        CreationOutcome::ProcessError { error } => seq!["✗ Process error: "@ + error@],
    }
}

/// The lines a creation's log starts with.
pub open spec fn start_lines(os: Seq<char>, version: Seq<char>) -> Seq<Seq<char>> {
    seq!["Starting VM creation: "@ + os + " "@ + version, "Executing quickget command..."@]
}

/// The progress logs of the creations under way, by creation id.
pub struct CreationLogs {
    logs: SessionTable<Vec<String>>,
}

impl CreationLogs {
    /// The log of a creation, if it is known.
    pub closed spec fn log(&self, id: Seq<char>) -> Option<Seq<Seq<char>>> {
        match self.logs.lookup(id) {
            Some(v) => Some(views(v@)),
            None => None,
        }
    }

    pub closed spec fn wf(&self) -> bool {
        self.logs.wf()
    }

    pub fn new() -> (r: Self)
        ensures
            r.wf(),
            forall|id: Seq<char>| #[trigger] r.log(id).is_none(),
    {
        CreationLogs { logs: SessionTable::new() }
    }

    /// Opens the log of a creation that starts.
    pub fn begin(&mut self, id: String, os: &str, version: &str)
        requires
            old(self).wf(),
        ensures
            final(self).wf(),
            final(self).log(id@) == Some(start_lines(os@, version@)),
            forall|j: Seq<char>| j != id@ ==> #[trigger] final(self).log(j) == old(self).log(j),
    {
        let mut first = concat("Starting VM creation: ", os);
        push_str(&mut first, " ");
        push_str(&mut first, version);
        let mut lines: Vec<String> = Vec::new();
        lines.push(first);
        lines.push("Executing quickget command...".to_owned());
        assert(views(lines@) =~= start_lines(os@, version@));
        self.logs.insert(id, lines);
    }

    /// Adds a line to the log of a known creation; an unknown one is left
    /// alone.
    pub fn append(&mut self, id: &str, line: String)
        requires
            old(self).wf(),
        ensures
            final(self).wf(),
            final(self).log(id@) == (match old(self).log(id@) {
                Some(ls) => Some(ls.push(line@)),
                None => None,
            }),
            forall|j: Seq<char>| j != id@ ==> #[trigger] final(self).log(j) == old(self).log(j),
    {
        match self.logs.remove(id) {
            Some(mut lines) => {
                let ghost before = views(lines@);
                lines.push(line);
                assert(views(lines@) =~= before.push(line@));
                self.logs.insert(id.to_owned(), lines);
            },
            None => {},
        }
    }

    /// Adds a line the creation wrote to its error stream.
    pub fn append_error(&mut self, id: &str, line: &str)
        requires
            old(self).wf(),
        ensures
            final(self).wf(),
            final(self).log(id@) == (match old(self).log(id@) {
                Some(ls) => Some(ls.push("ERROR: "@ + line@)),
                None => None,
            }),
            forall|j: Seq<char>| j != id@ ==> #[trigger] final(self).log(j) == old(self).log(j),
    {
        let l = concat("ERROR: ", line);
        self.append(id, l);
    }

    /// Records how a creation ended.
    pub fn finish(&mut self, id: &str, outcome: CreationOutcome)
        requires
            old(self).wf(),
        ensures
            final(self).wf(),
            final(self).log(id@) == (match old(self).log(id@) {
                Some(ls) => Some(ls + outcome_lines(outcome)),
                None => None,
            }),
            forall|j: Seq<char>| j != id@ ==> #[trigger] final(self).log(j) == old(self).log(j),
    {
        let ghost start = self.log(id@);
        match outcome {
            CreationOutcome::Succeeded { spice } => {
                let ghost sp = spice;
                self.append(id, "✓ VM created successfully!".to_owned());
                let second = match spice {
                    Ok(_) => "✓ SPICE display protocol configured".to_owned(),
                    Err(e) => concat("⚠ Warning: Could not set SPICE display: ", e.as_str()),
                };
                self.append(id, second);
                proof {
                    if let Some(ls) = start {
                        assert(self.log(id@).unwrap() =~= ls + outcome_lines(
                            CreationOutcome::Succeeded { spice: sp },
                        ));
                    }
                }
            },
            CreationOutcome::Failed { code } => {
                let mut l = "✗ quickget failed with exit code: ".to_owned();
                match code {
                    Some(c) => {
                        push_str(&mut l, "Some(");
                        push_signed_decimal(&mut l, c as i64);
                        push_str(&mut l, ")");
                    },
                    None => push_str(&mut l, "None"),
                }
                assert(l@ =~= "✗ quickget failed with exit code: "@ + code_text(code));
                self.append(id, l);
                proof {
                    if let Some(ls) = start {
                        assert(self.log(id@).unwrap() =~= ls + outcome_lines(
                            CreationOutcome::Failed { code },
                        ));
                    }
                }
            },
            CreationOutcome::ProcessError { error } => {
                let l = concat("✗ Process error: ", error.as_str());
                self.append(id, l);
                proof {
                    if let Some(ls) = start {
                        assert(self.log(id@).unwrap() =~= ls + outcome_lines(
                            CreationOutcome::ProcessError { error },
                        ));
                    }
                }
            },
        }
    }

    /// The log of a creation, or a single line saying it is unknown.
    pub fn lines(&self, id: &str) -> (r: Vec<String>)
        requires
            self.wf(),
        ensures
            views(r@) == (match self.log(id@) {
                Some(ls) => ls,
                None => seq!["Creation process not found"@],
            }),
    {
        match self.logs.get(id) {
            Some(v) => v.clone(),
            None => {
                let mut r: Vec<String> = Vec::new();
                r.push("Creation process not found".to_owned());
                assert(views(r@) =~= seq!["Creation process not found"@]);
                r
            },
        }
    }

    /// Forgets the log of a creation.
    pub fn cleanup(&mut self, id: &str)
        requires
            old(self).wf(),
        ensures
            final(self).wf(),
            final(self).log(id@).is_none(),
            forall|j: Seq<char>| j != id@ ==> #[trigger] final(self).log(j) == old(self).log(j),
    {
        self.logs.remove(id);
    }
}

} // verus!
