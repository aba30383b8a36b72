use gwf::config::{Config, SyncStrategy};
use gwf::verbosity::{log_level, shows_banner};

#[test]
fn test_default_config() {
    let config = Config::default();
    assert_eq!(config.workflows.feature_branch_prefix, "feature/");
    assert_eq!(config.workflows.hotfix_branch_prefix, "hotfix/");
    assert_eq!(config.workflows.release_branch_prefix, "release/");
    assert_eq!(config.workflows.main_branch, "main");
    assert_eq!(config.commits.conventional, true);
    assert_eq!(config.sync.auto_stash, true);
    assert_eq!(config.cleanup.delete_merged, true);
}

#[test]
fn test_sync_strategy() {
    let config = Config::default();
    assert!(matches!(config.sync.strategy, SyncStrategy::Rebase));
}

#[test]
fn default_config_other_fields() {
    let config = Config::default();
    assert_eq!(config.workflows.develop_branch.as_deref(), Some("develop"));
    assert!(!config.commits.sign_commits);
    assert!(config.commits.gpg_key.is_none());
    assert!(config.sync.prune_on_fetch);
    assert_eq!(config.cleanup.days_until_stale, 30);
    assert_eq!(
        config.cleanup.protect_branches,
        vec!["main", "master", "develop", "production"]
    );
    assert!(config.ai.is_none());
}

#[test]
fn verbosity_levels() {
    assert_eq!(log_level(0), "warn");
    assert_eq!(log_level(1), "info");
    assert_eq!(log_level(2), "debug");
    assert_eq!(log_level(9), "trace");
    assert!(shows_banner(false, 0));
    assert!(!shows_banner(false, 1));
    assert!(!shows_banner(true, 0));
}
