//! What the run reports at its end: one line per diagnostic, the bare total
//! when it is not zero, and an exit status that says whether anything was
//! skipped.

use vstd::prelude::*;
use vstd::string::StringExecFns;
use crate::classify::Diagnostic;
use crate::classify::DiagnosticKind;

verus! {

/// The tail of the report line for each failure class.
pub open spec fn message_tail(k: DiagnosticKind) -> Seq<char> {
    match k {
        DiagnosticKind::MissingTarget => " No such file or directory"@,
        DiagnosticKind::RejectedDirectory => " Is a directory"@,
        DiagnosticKind::SubdirectoryReadFailure => " Could not be read"@,
    }
}

/// The report line for one diagnostic: the program name, the path it
/// concerns, and the failure class's message.
pub fn diagnostic_line(prog: &str, d: &Diagnostic) -> (r: String)
    ensures
        r@ == prog@ + ": "@ + d.path@ + message_tail(d.kind),
{
    let mut line = prog.to_owned();
    line.append(": ");
    line.append(d.path.as_str());
    match d.kind {
        DiagnosticKind::MissingTarget => line.append(" No such file or directory"),
        DiagnosticKind::RejectedDirectory => line.append(" Is a directory"),
        DiagnosticKind::SubdirectoryReadFailure => line.append(" Could not be read"),
    }
    line
}

/// Whether the final total is printed at all: a zero total is suppressed.
pub fn should_report_total(total: usize) -> (r: bool)
    ensures
        r == (total != 0),
{
    total != 0
}

/// The process exit status: zero only when no failure was recorded.
pub fn exit_code(error: bool) -> (r: i32)
    ensures
        error ==> r == 1,
        !error ==> r == 0,
{
    if error {
        1
    } else {
        0
    }
}

} // verus!
