//! Classifying user-supplied targets into work items and diagnostics.
//!
//! Each target is classified on its own: the outcome depends only on the
//! target's resolved kind and on whether directory descent is enabled, never
//! on any other target. A file that later cannot be opened is skipped
//! silently — it contributes zero to the total and raises no diagnostic —
//! which is this library's documented policy for open failures.

use vstd::prelude::*;

verus! {

/// What a user-supplied path resolved to on the filesystem. Anything that
/// exists but is not a directory is classified as a file.
#[derive(Clone, Copy, PartialEq, Eq, Structural, Debug)]
pub enum TargetKind {
    File,
    Directory,
    Missing,
}

/// The failure classes a run can report. An unopenable file is not among
/// them: by policy it is skipped silently.
#[derive(Clone, Copy, PartialEq, Eq, Structural, Debug)]
pub enum DiagnosticKind {
    MissingTarget,
    RejectedDirectory,
    SubdirectoryReadFailure,
}

/// One failure report: which class of failure, and the path it concerns.
/// Emitting a diagnostic never stops the counting of unrelated targets.
pub struct Diagnostic {
    pub kind: DiagnosticKind,
    pub path: String,
}

/// One unit of scheduled work: count the newline bytes of a file, or expand
/// a directory into further work items. Each item is consumed exactly once.
pub enum WorkItem {
    CountFile(String),
    ExpandDirectory(String),
}

/// The outcome of classifying one target: either a work item to schedule, or
/// a diagnostic together with the sticky error state being set.
pub enum Classification {
    Work(WorkItem),
    Refused(Diagnostic),
}

/// The Target Classifier: a file becomes a counting item; a directory becomes
/// an expansion item when descent is enabled and is refused otherwise; a
/// missing path is refused. The outcome is a function of the target alone.
pub fn classify_target(path: String, kind: TargetKind, recursive: bool) -> (r: Classification)
    ensures
        kind is File ==> (r matches Classification::Work(WorkItem::CountFile(p)) && p == path),
        (kind is Directory && recursive) ==> (r matches Classification::Work(
            WorkItem::ExpandDirectory(p),
        ) && p == path),
        (kind is Directory && !recursive) ==> (r matches Classification::Refused(d)
            && d.kind is RejectedDirectory && d.path == path),
        kind is Missing ==> (r matches Classification::Refused(d) && d.kind is MissingTarget
            && d.path == path),
{
    match kind {
        TargetKind::File => Classification::Work(WorkItem::CountFile(path)),
        TargetKind::Directory => {
            if recursive {
                Classification::Work(WorkItem::ExpandDirectory(path))
            } else {
                Classification::Refused(
                    Diagnostic { kind: DiagnosticKind::RejectedDirectory, path },
                )
            }
        },
        TargetKind::Missing => Classification::Refused(
            Diagnostic { kind: DiagnosticKind::MissingTarget, path },
        ),
    }
}

} // verus!
