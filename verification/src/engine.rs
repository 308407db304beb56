//! The run engine: targets are classified into work, discovered directories
//! wait on an explicit frontier, per-file counts are merged, and failures set
//! the sticky error flag. The surrounding program feeds it events — a
//! classified target, a directory listing, a listing failure, a finished
//! count — and performs the filesystem work between them; every decision
//! stands here under contract.

use vstd::prelude::*;
use crate::aggregate::Aggregator;
use crate::aggregate::sum_of;
use crate::classify::Classification;
use crate::classify::Diagnostic;
use crate::classify::DiagnosticKind;
use crate::classify::TargetKind;
use crate::classify::WorkItem;
use crate::classify::classify_target;

verus! {

/// What a directory entry resolved to: a subdirectory, or anything else,
/// which is treated as a file for counting purposes.
#[derive(Clone, Copy, PartialEq, Eq, Structural, Debug)]
pub enum EntryKind {
    File,
    Directory,
}

/// One immediate entry of a listed directory.
pub struct DirEntry {
    pub path: String,
    pub kind: EntryKind,
}

/// The paths of the file entries among `entries`, in listing order.
pub open spec fn file_paths(entries: Seq<DirEntry>) -> Seq<String>
    decreases entries.len(),
{
    if entries.len() == 0 {
        Seq::empty()
    } else {
        let rest = file_paths(entries.subrange(1, entries.len() as int));
        if entries[0].kind is File {
            seq![entries[0].path] + rest
        } else {
            rest
        }
    }
}

/// The paths of the subdirectory entries among `entries`, in listing order.
pub open spec fn dir_paths(entries: Seq<DirEntry>) -> Seq<String>
    decreases entries.len(),
{
    if entries.len() == 0 {
        Seq::empty()
    } else {
        let rest = dir_paths(entries.subrange(1, entries.len() as int));
        if entries[0].kind is Directory {
            seq![entries[0].path] + rest
        } else {
            rest
        }
    }
}

/// What accepting one target produced: a file the caller should now stream
/// and count, a directory queued on the frontier, or a refusal whose
/// diagnostic the caller should report.
pub enum Submission {
    FileToCount(String),
    Queued,
    Refused(Diagnostic),
}

/// The state of one run: whether descent is enabled, the frontier of
/// directories discovered but not yet expanded, and the accumulation context.
pub struct Engine {
    recursive: bool,
    frontier: Vec<String>,
    agg: Aggregator,
}

impl Engine {
    /// Whether directory descent is enabled for this run.
    pub closed spec fn recursive(self) -> bool {
        self.recursive
    }

    /// The directories discovered but not yet expanded, in discovery order.
    pub closed spec fn frontier(self) -> Seq<String> {
        self.frontier@
    }

    /// The per-file counts merged so far.
    pub closed spec fn counts(self) -> Seq<usize> {
        self.agg.counts()
    }

    /// Whether any failure has been recorded.
    pub closed spec fn error(self) -> bool {
        self.agg.error()
    }

    /// The accumulation context is intact.
    pub closed spec fn wf(self) -> bool {
        self.agg.wf()
    }

    /// A fresh run: empty frontier, zero total, no error.
    pub fn new(recursive: bool) -> (r: Engine)
        ensures
            r.wf(),
            r.recursive() == recursive,
            r.frontier() == Seq::<String>::empty(),
            r.counts() == Seq::<usize>::empty(),
            !r.error(),
    {
        Engine { recursive, frontier: Vec::new(), agg: Aggregator::new() }
    }

    /// Accept one classified target. A file is handed back to be counted; a
    /// directory joins the frontier when descent is enabled and is refused
    /// otherwise; a missing path is refused. A refusal sets the sticky error
    /// flag; nothing else changes it, and merged counts are never touched.
    /// One target's outcome depends on its kind and this run's flag alone,
    /// so no target can block another.
    pub fn accept_target(&mut self, path: String, kind: TargetKind) -> (r: Submission)
        requires
            old(self).wf(),
        ensures
            final(self).wf(),
            final(self).recursive() == old(self).recursive(),
            final(self).counts() == old(self).counts(),
            old(self).error() ==> final(self).error(),
            kind is File ==> (r matches Submission::FileToCount(p)
                && p == path
                && final(self).frontier() == old(self).frontier()
                && final(self).error() == old(self).error()),
            (kind is Directory && old(self).recursive()) ==> (r is Queued
                && final(self).frontier() == old(self).frontier().push(path)
                && final(self).error() == old(self).error()),
            (kind is Directory && !old(self).recursive()) ==> (r matches Submission::Refused(d)
                && d.kind is RejectedDirectory
                && d.path == path
                && final(self).frontier() == old(self).frontier()
                && final(self).error()),
            kind is Missing ==> (r matches Submission::Refused(d)
                && d.kind is MissingTarget
                && d.path == path
                && final(self).frontier() == old(self).frontier()
                && final(self).error()),
    {
        match classify_target(path, kind, self.recursive) {
            Classification::Work(WorkItem::CountFile(p)) => Submission::FileToCount(p),
            Classification::Work(WorkItem::ExpandDirectory(p)) => {
                self.frontier.push(p);
                Submission::Queued
            },
            Classification::Refused(d) => {
                self.agg.mark_error();
                Submission::Refused(d)
            },
        }
    }

    /// Take one pending directory off the frontier, if any is left.
    pub fn next_directory(&mut self) -> (r: Option<String>)
        ensures
            final(self).wf() == old(self).wf(),
            final(self).recursive() == old(self).recursive(),
            final(self).counts() == old(self).counts(),
            final(self).error() == old(self).error(),
            old(self).frontier().len() == 0 ==> (r is None
                && final(self).frontier() == old(self).frontier()),
            old(self).frontier().len() > 0 ==> (r matches Some(p)
                && p == old(self).frontier().last()
                && final(self).frontier() == old(self).frontier().drop_last()),
    {
        let r = self.frontier.pop();
        proof {
            if old(self).frontier().len() > 0 {
                assert(self.frontier@ =~= old(self).frontier().drop_last());
            }
        }
        r
    }

    /// Expand one listed directory: every file entry is handed back to be
    /// counted, every subdirectory entry joins the frontier, and nothing
    /// else changes. Entries that are neither are already classified as
    /// files by the caller's listing.
    pub fn directory_listed(&mut self, entries: Vec<DirEntry>) -> (files: Vec<String>)
        requires
            old(self).wf(),
        ensures
            final(self).wf(),
            final(self).recursive() == old(self).recursive(),
            final(self).counts() == old(self).counts(),
            final(self).error() == old(self).error(),
            files@ == file_paths(entries@),
            final(self).frontier() == old(self).frontier() + dir_paths(entries@),
    {
        let ghost all = entries@;
        let ghost frontier0 = self.frontier@;
        let ghost counts0 = self.agg.counts();
        let ghost error0 = self.agg.error();
        let ghost recursive0 = self.recursive;
        let mut rest = entries;
        let mut files: Vec<String> = Vec::new();
        proof {
            assert(files@ + file_paths(all) =~= file_paths(all));
        }
        while rest.len() != 0
            invariant
                self.agg.wf(),
                self.agg.counts() == counts0,
                self.agg.error() == error0,
                self.recursive == recursive0,
                files@ + file_paths(rest@) == file_paths(all),
                self.frontier@ + dir_paths(rest@) == frontier0 + dir_paths(all),
            decreases rest.len(),
        {
            let ghost pending = rest@;
            let entry = rest.remove(0);
            proof {
                assert(rest@ =~= pending.subrange(1, pending.len() as int));
            }
            match entry.kind {
                EntryKind::File => {
                    proof {
                        assert(file_paths(pending) == seq![entry.path] + file_paths(rest@));
                        assert((files@ + seq![entry.path]) + file_paths(rest@) =~= files@
                            + file_paths(pending));
                        assert(files@.push(entry.path) =~= files@ + seq![entry.path]);
                    }
                    files.push(entry.path);
                },
                EntryKind::Directory => {
                    proof {
                        assert(dir_paths(pending) == seq![entry.path] + dir_paths(rest@));
                        assert((self.frontier@ + seq![entry.path]) + dir_paths(rest@)
                            =~= self.frontier@ + dir_paths(pending));
                        assert(self.frontier@.push(entry.path) =~= self.frontier@
                            + seq![entry.path]);
                    }
                    self.frontier.push(entry.path);
                },
            }
        }
        proof {
            assert(files@ + file_paths(rest@) =~= files@);
            assert(self.frontier@ + dir_paths(rest@) =~= self.frontier@);
        }
        files
    }

    /// Record that one pending directory could not be listed: the sticky
    /// error flag is set, the caller gets the diagnostic to report, and the
    /// directory contributes no further entries. Counting elsewhere goes on.
    pub fn directory_unreadable(&mut self, path: String) -> (d: Diagnostic)
        ensures
            final(self).wf() == old(self).wf(),
            final(self).recursive() == old(self).recursive(),
            final(self).counts() == old(self).counts(),
            final(self).frontier() == old(self).frontier(),
            final(self).error(),
            d.kind is SubdirectoryReadFailure,
            d.path == path,
    {
        self.agg.mark_error();
        Diagnostic { kind: DiagnosticKind::SubdirectoryReadFailure, path }
    }

    /// Merge the finished count of one file into the total.
    pub fn record_count(&mut self, n: usize)
        requires
            old(self).wf(),
            sum_of(old(self).counts()) + n <= usize::MAX,
        ensures
            final(self).wf(),
            final(self).recursive() == old(self).recursive(),
            final(self).frontier() == old(self).frontier(),
            final(self).counts() == old(self).counts().push(n),
            final(self).error() == old(self).error(),
    {
        self.agg.add(n);
    }

    /// The aggregate total: the sum of every merged per-file count.
    pub fn total(&self) -> (r: usize)
        requires
            self.wf(),
        ensures
            r == sum_of(self.counts()),
    {
        self.agg.total()
    }

    /// Whether any target was missing, any directory was refused, or any
    /// listing failed during this run.
    pub fn has_error(&self) -> (r: bool)
        ensures
            r == self.error(),
    {
        self.agg.has_error()
    }
}

} // verus!
