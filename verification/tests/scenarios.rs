use lines::classify::{classify_target, Classification, DiagnosticKind, TargetKind, WorkItem};
use lines::count::count_chunk;
use lines::engine::{DirEntry, Engine, EntryKind, Submission};
use lines::report::{diagnostic_line, exit_code, should_report_total};

#[test]
fn classifier_outcomes() {
    match classify_target("a.txt".to_string(), TargetKind::File, false) {
        Classification::Work(WorkItem::CountFile(p)) => assert_eq!(p, "a.txt"),
        _ => panic!("a file target must become a counting item"),
    }
    match classify_target("d".to_string(), TargetKind::Directory, true) {
        Classification::Work(WorkItem::ExpandDirectory(p)) => assert_eq!(p, "d"),
        _ => panic!("a directory target must expand when descent is enabled"),
    }
    match classify_target("d".to_string(), TargetKind::Directory, false) {
        Classification::Refused(d) => {
            assert_eq!(d.kind, DiagnosticKind::RejectedDirectory);
            assert_eq!(d.path, "d");
        },
        _ => panic!("a directory target must be refused when descent is disabled"),
    }
    match classify_target("gone".to_string(), TargetKind::Missing, true) {
        Classification::Refused(d) => {
            assert_eq!(d.kind, DiagnosticKind::MissingTarget);
            assert_eq!(d.path, "gone");
        },
        _ => panic!("a missing target must be refused"),
    }
}

#[test]
fn rejected_directory_blocks_nothing_else() {
    // a directory target without descent: refused, nothing under it counted,
    // exit code 1 — while a sibling file target is still processed
    let mut engine = Engine::new(false);
    match engine.accept_target("d".to_string(), TargetKind::Directory) {
        Submission::Refused(d) => assert_eq!(d.kind, DiagnosticKind::RejectedDirectory),
        _ => panic!("the directory must be refused"),
    }
    assert!(engine.next_directory().is_none(), "nothing may be queued for descent");
    match engine.accept_target("a.txt".to_string(), TargetKind::File) {
        Submission::FileToCount(p) => {
            let n = count_chunk(b"a\nb\nc\n");
            assert_eq!(p, "a.txt");
            engine.record_count(n);
        },
        _ => panic!("the sibling file target must still be counted"),
    }
    assert_eq!(engine.total(), 3);
    assert!(engine.has_error());
    assert_eq!(exit_code(engine.has_error()), 1);
}

#[test]
fn missing_target_blocks_nothing_else() {
    // targets ["missing.txt", "a.txt"] without descent, a.txt holding three
    // newline bytes: the missing target is reported, the total is 3, exit 1
    let mut engine = Engine::new(false);
    let diag = match engine.accept_target("missing.txt".to_string(), TargetKind::Missing) {
        Submission::Refused(d) => d,
        _ => panic!("the missing target must be refused"),
    };
    assert_eq!(diag.kind, DiagnosticKind::MissingTarget);
    assert_eq!(
        diagnostic_line("lines", &diag),
        "lines: missing.txt No such file or directory"
    );
    match engine.accept_target("a.txt".to_string(), TargetKind::File) {
        Submission::FileToCount(_) => engine.record_count(count_chunk(b"one\ntwo\nthree\n")),
        _ => panic!("the file target must still be counted"),
    }
    assert_eq!(engine.total(), 3);
    assert!(should_report_total(engine.total()));
    assert_eq!(exit_code(engine.has_error()), 1);
}

#[test]
fn recursive_run_over_a_directory() {
    // d/ holds a.txt ("a\nb\nc\n", 3), b.txt (empty, 0) and sub/c.txt
    // ("x\ny\n", 2): a recursive run totals 5 with exit code 0
    let mut engine = Engine::new(true);
    match engine.accept_target("d".to_string(), TargetKind::Directory) {
        Submission::Queued => {},
        _ => panic!("the directory must be queued for expansion"),
    }
    let mut pending_files: Vec<String> = Vec::new();
    while let Some(dir) = engine.next_directory() {
        let entries = match dir.as_str() {
            "d" => vec![
                DirEntry { path: "d/a.txt".to_string(), kind: EntryKind::File },
                DirEntry { path: "d/b.txt".to_string(), kind: EntryKind::File },
                DirEntry { path: "d/sub".to_string(), kind: EntryKind::Directory },
            ],
            "d/sub" => vec![DirEntry { path: "d/sub/c.txt".to_string(), kind: EntryKind::File }],
            other => panic!("unexpected directory {}", other),
        };
        pending_files.extend(engine.directory_listed(entries));
    }
    let mut names = pending_files.clone();
    names.sort();
    assert_eq!(names, vec!["d/a.txt", "d/b.txt", "d/sub/c.txt"]);
    for file in pending_files {
        let content: &[u8] = match file.as_str() {
            "d/a.txt" => b"a\nb\nc\n",
            "d/b.txt" => b"",
            "d/sub/c.txt" => b"x\ny\n",
            other => panic!("unexpected file {}", other),
        };
        engine.record_count(count_chunk(content));
    }
    assert_eq!(engine.total(), 5);
    assert!(!engine.has_error());
    assert_eq!(exit_code(engine.has_error()), 0);
}

#[test]
fn merge_order_does_not_change_the_total() {
    let counts = [3usize, 0, 2, 7, 1];
    let mut forward = Engine::new(true);
    for n in counts {
        forward.record_count(n);
    }
    let mut backward = Engine::new(true);
    for n in counts.iter().rev() {
        backward.record_count(*n);
    }
    let mut interleaved = Engine::new(true);
    for n in [2usize, 3, 1, 0, 7] {
        interleaved.record_count(n);
    }
    assert_eq!(forward.total(), 13);
    assert_eq!(backward.total(), 13);
    assert_eq!(interleaved.total(), 13);
}

#[test]
fn unreadable_subdirectory_is_reported_and_skipped() {
    let mut engine = Engine::new(true);
    match engine.accept_target("top".to_string(), TargetKind::Directory) {
        Submission::Queued => {},
        _ => panic!("the directory must be queued"),
    }
    let dir = engine.next_directory().expect("one directory is pending");
    let diag = engine.directory_unreadable(dir);
    assert_eq!(diag.kind, DiagnosticKind::SubdirectoryReadFailure);
    assert_eq!(diag.path, "top");
    assert_eq!(diagnostic_line("lines", &diag), "lines: top Could not be read");
    assert!(engine.next_directory().is_none(), "a failed directory has no entries");
    assert_eq!(engine.total(), 0);
    assert_eq!(exit_code(engine.has_error()), 1);
}

#[test]
fn error_flag_is_sticky() {
    let mut engine = Engine::new(false);
    match engine.accept_target("gone".to_string(), TargetKind::Missing) {
        Submission::Refused(_) => {},
        _ => panic!("the missing target must be refused"),
    }
    assert!(engine.has_error());
    match engine.accept_target("a.txt".to_string(), TargetKind::File) {
        Submission::FileToCount(_) => engine.record_count(4),
        _ => panic!("the file target must still be counted"),
    }
    assert!(engine.has_error(), "a later success must not clear the flag");
}

#[test]
fn diagnostic_lines_match_the_reported_forms() {
    let mut engine = Engine::new(false);
    let missing = match engine.accept_target("m".to_string(), TargetKind::Missing) {
        Submission::Refused(d) => d,
        _ => panic!("refused"),
    };
    let rejected = match engine.accept_target("d".to_string(), TargetKind::Directory) {
        Submission::Refused(d) => d,
        _ => panic!("refused"),
    };
    assert_eq!(diagnostic_line("lines", &missing), "lines: m No such file or directory");
    assert_eq!(diagnostic_line("lines", &rejected), "lines: d Is a directory");
}

#[test]
fn zero_total_is_suppressed() {
    assert!(!should_report_total(0));
    assert!(should_report_total(1));
    assert!(should_report_total(5));
}
