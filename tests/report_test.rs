use gwf::choice::{
    bisect_action, listed_tags, needs_confirmation, undo_action, BisectAction, UndoAction,
};
use gwf::report::{bisect_in_progress, parse_log, parse_recent_branches, steps_remaining};
use gwf::stats::{bar_length, count_changes, tally, top_contributors, FileStatus};
use gwf::text::{split_lines, strip_leading_text};

fn names(v: &[&str]) -> Vec<String> {
    v.iter().map(|s| s.to_string()).collect()
}

#[test]
fn log_lines_become_entries() {
    let out = "abc123|Add x|2 hours ago|body\ndef456|Fix y|3 days ago|\nmore body line\n";
    let entries = parse_log(out);
    assert_eq!(entries.len(), 2);
    assert_eq!(entries[0].hash, "abc123");
    assert_eq!(entries[0].subject, "Add x");
    assert_eq!(entries[0].when, "2 hours ago");
    assert_eq!(entries[1].hash, "def456");
    assert!(parse_log("").is_empty());
}

#[test]
fn branch_lines_mark_current() {
    let b = parse_recent_branches("main|2 days ago\nfeature/x|1 hour ago\nbroken\n", "feature/x");
    assert_eq!(b.len(), 2);
    assert_eq!(b[0].name, "main");
    assert!(!b[0].is_current);
    assert_eq!(b[1].when, "1 hour ago");
    assert!(b[1].is_current);
}

#[test]
fn bisect_status() {
    assert!(bisect_in_progress("git bisect start\n# bisecting: 3 revisions left\n"));
    assert!(!bisect_in_progress("git bisect start\ngit bisect bad abc\n"));
    assert!(!bisect_in_progress(""));
    assert_eq!(steps_remaining("  7 abc\n").as_deref(), Some("7"));
    assert_eq!(steps_remaining("   "), None);
}

#[test]
fn lines_and_prefixes() {
    assert_eq!(split_lines("a\r\nb\n\nc\r"), names(&["a", "b", "", "c\r"]));
    assert!(split_lines("").is_empty());
    assert_eq!(strip_leading_text("vvv1.0", "v"), "1.0");
    assert_eq!(strip_leading_text("refs/tags/v1", "refs/tags/"), "v1");
}

#[test]
fn author_tally_and_top() {
    let t = tally(&names(&["ann", "bob", "ann"]));
    assert_eq!(t.len(), 2);
    assert_eq!((t[0].name.as_str(), t[0].commits), ("ann", 2));
    assert_eq!((t[1].name.as_str(), t[1].commits), ("bob", 1));
    let all = names(&["a", "b", "b", "c", "d", "b", "c", "d", "d", "e", "f"]);
    let top: Vec<(String, usize)> =
        top_contributors(&all).into_iter().map(|a| (a.name, a.commits)).collect();
    assert_eq!(
        top,
        vec![
            ("b".to_string(), 3),
            ("d".to_string(), 3),
            ("c".to_string(), 2),
            ("a".to_string(), 1),
            ("e".to_string(), 1)
        ]
    );
}

#[test]
fn bar_widths() {
    assert_eq!(bar_length(1, 100), 1);
    assert_eq!(bar_length(5, 10), 10);
    assert_eq!(bar_length(10, 10), 20);
    assert_eq!(bar_length(7, 30), 4);
}

#[test]
fn change_counts() {
    let none = FileStatus {
        index_new: false,
        index_modified: false,
        index_deleted: false,
        wt_new: false,
        wt_modified: false,
        wt_deleted: false,
    };
    let entries = vec![
        FileStatus { wt_modified: true, ..none },
        FileStatus { index_new: true, wt_modified: true, ..none },
        FileStatus { wt_deleted: true, ..none },
        none,
    ];
    let c = count_changes(&entries);
    assert_eq!((c.modified, c.added, c.deleted), (2, 1, 1));
}

#[test]
fn menus_and_tag_listing() {
    assert_eq!(bisect_action(0), Some(BisectAction::Start));
    assert_eq!(bisect_action(5), Some(BisectAction::Automated));
    assert_eq!(bisect_action(6), None);
    assert_eq!(undo_action(1), UndoAction::DiscardChanges);
    assert_eq!(undo_action(9), UndoAction::Cancel);
    assert!(needs_confirmation(UndoAction::DiscardChanges));
    assert!(needs_confirmation(UndoAction::UndoMerge));
    assert!(!needs_confirmation(UndoAction::KeepChanges));
    assert!(!needs_confirmation(UndoAction::AbortMerge));
    assert!(!needs_confirmation(UndoAction::Cancel));
    let refs: Vec<String> = (1..=12).map(|i| format!("refs/tags/v0.{}.0", i)).collect();
    let listed = listed_tags(&refs);
    assert_eq!(listed.len(), 10);
    assert_eq!(listed[0], "v0.12.0");
    assert_eq!(listed[9], "v0.3.0");
}

#[test]
fn commit_days_and_recent_counts() {
    assert_eq!(gwf::stats::commit_day(0, "2026-10-18"), "1970-01-01");
    assert_eq!(gwf::stats::commit_day(1_700_000_000, "2026-10-18"), "2023-11-14");
    assert_eq!(gwf::stats::commit_day(i64::MAX, "2026-10-18"), "2026-10-18");
    let days = names(&[
        "2024-01-01T00:00:00Z",
        "2024-01-01T00:00:00Z",
        "2023-01-01T00:00:00Z",
        "2024-05-01",
    ]);
    assert_eq!(gwf::stats::recent_commits(&days, 1_685_577_600, 0), 2);
    assert_eq!(gwf::stats::recent_commits(&names(&["2024-05-01", "2024-05-02"]), 0, 0), 0);
    assert_eq!(gwf::stats::recent_commits(&Vec::new(), 0, 0), 0);
}
