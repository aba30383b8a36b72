use gwf::cleanup::{
    cleanup_decision, confirmed, is_cleanup_candidate, is_merged, select_branches,
    CleanupDecision,
};
use gwf::config::Config;

fn names(v: &[&str]) -> Vec<String> {
    v.iter().map(|s| s.to_string()).collect()
}

#[test]
fn merged_branches_are_selected() {
    let branches = names(&["feature/a", "feature/b", "main", "fix/c"]);
    let protected = Config::default().cleanup.protect_branches;
    let merged = vec![true, false, true, true];
    let picked = select_branches(&branches, "feature/b", &protected, &merged);
    assert_eq!(picked, names(&["feature/a", "fix/c"]));
}

#[test]
fn current_and_protected_are_never_selected() {
    let branches = names(&["develop", "work", "production", "master"]);
    let protected = Config::default().cleanup.protect_branches;
    let merged = vec![true, true, true, true];
    let picked = select_branches(&branches, "work", &protected, &merged);
    assert!(picked.is_empty());
}

#[test]
fn merge_base_equal_to_tip_means_merged() {
    let tip = vec![1u8, 2, 3, 4];
    assert!(is_merged(&tip, &vec![1, 2, 3, 4]));
    assert!(!is_merged(&tip, &vec![1, 2, 3, 5]));
    assert!(!is_merged(&tip, &vec![1, 2, 3]));
}

#[test]
fn candidates_exclude_current_and_protected() {
    let protected = Config::default().cleanup.protect_branches;
    assert!(!is_cleanup_candidate("main", "topic", &protected));
    assert!(!is_cleanup_candidate("topic", "topic", &protected));
    assert!(is_cleanup_candidate("old", "topic", &protected));
}

#[test]
fn only_main_means_nothing_to_clean() {
    let branches = names(&["main"]);
    let protected = Config::default().cleanup.protect_branches;
    let picked = select_branches(&branches, "main", &protected, &vec![true]);
    assert!(picked.is_empty());
    assert_eq!(
        cleanup_decision(picked.len(), false, false, true, false),
        CleanupDecision::NothingToClean
    );
}

#[test]
fn dry_run_only_reports() {
    assert_eq!(cleanup_decision(3, true, true, true, true), CleanupDecision::ReportOnly);
    assert_eq!(cleanup_decision(3, true, false, false, false), CleanupDecision::ReportOnly);
}

#[test]
fn decision_flags() {
    assert_eq!(
        cleanup_decision(2, false, true, false, true),
        CleanupDecision::Delete { prune_remote: true }
    );
    assert_eq!(cleanup_decision(2, false, false, true, false), CleanupDecision::Confirm);
    assert_eq!(
        cleanup_decision(2, false, false, false, false),
        CleanupDecision::SkipNonInteractive
    );
    assert_eq!(confirmed(false, true), CleanupDecision::Cancelled);
    assert_eq!(confirmed(true, false), CleanupDecision::Delete { prune_remote: false });
}
