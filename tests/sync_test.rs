use gwf::config::{SyncConfig, SyncStrategy};
use gwf::sync::{sync_targets, SyncCommand, SyncEvent, SyncSession, SyncTargets};

fn names(v: &[&str]) -> Vec<String> {
    v.iter().map(|s| s.to_string()).collect()
}

#[test]
fn failed_merge_is_aborted_and_next_branch_follows() {
    let config = SyncConfig { strategy: SyncStrategy::Merge, auto_stash: true, prune_on_fetch: true };
    let mut s = SyncSession::new(names(&["a", "b"]), &config);
    assert_eq!(s.command(), SyncCommand::InspectChanges);
    s.advance(SyncEvent::Changes(true));
    assert_eq!(s.command(), SyncCommand::Stash);
    s.advance(SyncEvent::Completed);
    assert_eq!(s.command(), SyncCommand::Checkout("a".to_string()));
    s.advance(SyncEvent::Completed);
    assert_eq!(s.command(), SyncCommand::Merge("origin/a".to_string()));
    s.advance(SyncEvent::Failed);
    assert_eq!(s.command(), SyncCommand::AbortRebase);
    s.advance(SyncEvent::Failed);
    assert_eq!(s.command(), SyncCommand::AbortMerge);
    s.advance(SyncEvent::Completed);
    assert_eq!(s.command(), SyncCommand::RestoreStash);
    s.advance(SyncEvent::Completed);
    assert_eq!(s.command(), SyncCommand::InspectChanges);
    s.advance(SyncEvent::Changes(false));
    assert_eq!(s.command(), SyncCommand::Checkout("b".to_string()));
    s.advance(SyncEvent::Completed);
    assert_eq!(s.command(), SyncCommand::Merge("origin/b".to_string()));
    s.advance(SyncEvent::Completed);
    assert_eq!(s.command(), SyncCommand::Prune);
    s.advance(SyncEvent::Completed);
    assert_eq!(s.command(), SyncCommand::Finished);
    assert!(s.is_finished());
    assert_eq!(s.failed, names(&["a"]));
}

#[test]
fn rebase_without_stash_or_prune() {
    let config = SyncConfig { strategy: SyncStrategy::Rebase, auto_stash: false, prune_on_fetch: false };
    let mut s = SyncSession::new(names(&["topic"]), &config);
    s.advance(SyncEvent::Changes(true));
    assert_eq!(s.command(), SyncCommand::Checkout("topic".to_string()));
    s.advance(SyncEvent::Completed);
    assert_eq!(s.command(), SyncCommand::Rebase("origin/topic".to_string()));
    s.advance(SyncEvent::NotRun);
    assert_eq!(s.command(), SyncCommand::AbortRebase);
    s.advance(SyncEvent::Completed);
    assert_eq!(s.command(), SyncCommand::AbortMerge);
    s.advance(SyncEvent::Completed);
    assert_eq!(s.command(), SyncCommand::Finished);
    assert_eq!(s.failed, names(&["topic"]));
}

#[test]
fn no_branches_goes_to_prune() {
    let config = SyncConfig { strategy: SyncStrategy::Rebase, auto_stash: true, prune_on_fetch: true };
    let s = SyncSession::new(Vec::new(), &config);
    assert_eq!(s.command(), SyncCommand::Prune);
    let config = SyncConfig { strategy: SyncStrategy::Rebase, auto_stash: true, prune_on_fetch: false };
    let s = SyncSession::new(Vec::new(), &config);
    assert!(s.is_finished());
}

#[test]
fn sync_target_choice() {
    assert_eq!(sync_targets(true, Some("x".to_string())), SyncTargets::AllLocal);
    assert_eq!(sync_targets(false, Some("x".to_string())), SyncTargets::Named("x".to_string()));
    assert_eq!(sync_targets(false, None), SyncTargets::Current);
}
