use gwf::config::{CommitConfig, Config};
use gwf::error::GwfError;
use gwf::workflow::{check_init, gitignore_update, on_uncommitted_changes, stash_answer, ChangesAction};
use gwf::workflow::{
    branch_name, branch_of_head, check_pr_source, commit_args, commit_type, compare_url,
    conventional_message, feature_base, message_source, pr_title_source, pull_action,
    target_or_main, MessageSource, PullAction, TitleSource, COMMIT_TYPE_COUNT,
};

#[test]
fn branch_names_and_bases() {
    let mut config = Config::default();
    assert_eq!(branch_name(&config.workflows.feature_branch_prefix, "login"), "feature/login");
    assert_eq!(feature_base(None, &config.workflows), "develop");
    assert_eq!(feature_base(Some("base".to_string()), &config.workflows), "base");
    assert_eq!(target_or_main(None, &config.workflows), "main");
    assert_eq!(target_or_main(Some("release/1.0".to_string()), &config.workflows), "release/1.0");
    config.workflows.develop_branch = None;
    assert_eq!(feature_base(None, &config.workflows), "main");
}

#[test]
fn pull_request_rules() {
    let config = Config::default();
    assert_eq!(check_pr_source("main", &config.workflows), Err(GwfError::PullRequestFromMainBranch));
    assert_eq!(check_pr_source("feature/x", &config.workflows), Ok(()));
    assert_eq!(
        compare_url("main", "feature/x", "Add login page"),
        "https://github.com/user/repo/compare/main...feature/x?title=Add%20login%20page"
    );
    assert_eq!(pr_title_source(Some("T".to_string()), false), TitleSource::Given("T".to_string()));
    assert_eq!(pr_title_source(None, true), TitleSource::Ask);
    assert_eq!(pr_title_source(None, false), TitleSource::BranchName);
}

#[test]
fn conventional_messages() {
    assert_eq!(conventional_message("feat", "api", "add endpoint", "", ""), "feat(api): add endpoint");
    assert_eq!(
        conventional_message("fix", "", "crash", "Details", "removed flag"),
        "fix: crash\n\nDetails\n\nBREAKING CHANGE: removed flag"
    );
    assert_eq!(COMMIT_TYPE_COUNT, 8);
    assert_eq!(commit_type(0), "feat");
    assert_eq!(commit_type(7), "chore");
    assert_eq!(gwf::workflow::commit_type_description(1), "A bug fix");
}

#[test]
fn commit_arguments() {
    let plain = CommitConfig { conventional: true, sign_commits: false, gpg_key: None };
    assert_eq!(commit_args(false, &plain, "msg"), vec!["commit", "-m", "msg"]);
    let signed = CommitConfig { conventional: true, sign_commits: true, gpg_key: Some("KEY".to_string()) };
    assert_eq!(
        commit_args(true, &signed, "msg"),
        vec!["commit", "--amend", "-S", "--gpg-sign", "KEY", "-m", "msg"]
    );
    let unkeyed = CommitConfig { conventional: true, sign_commits: true, gpg_key: None };
    assert_eq!(commit_args(false, &unkeyed, "m"), vec!["commit", "-S", "-m", "m"]);
}

#[test]
fn message_sources() {
    let conv = CommitConfig { conventional: true, sign_commits: false, gpg_key: None };
    let free = CommitConfig { conventional: false, sign_commits: false, gpg_key: None };
    assert_eq!(message_source(Some("m".to_string()), &conv, false), Ok(MessageSource::Given("m".to_string())));
    assert_eq!(message_source(None, &conv, false), Err(GwfError::NonInteractiveInputRequired));
    assert_eq!(message_source(None, &conv, true), Ok(MessageSource::Conventional));
    assert_eq!(message_source(None, &free, true), Ok(MessageSource::Plain));
}

#[test]
fn head_and_pull() {
    assert_eq!(branch_of_head(false, Some("x".to_string())), Err(GwfError::DetachedHead));
    assert_eq!(branch_of_head(true, None), Err(GwfError::UnreadableBranchName));
    assert_eq!(branch_of_head(true, Some("topic".to_string())), Ok("topic".to_string()));
    assert_eq!(pull_action(true, true), Ok(PullAction::AlreadyUpToDate));
    assert_eq!(pull_action(false, true), Ok(PullAction::FastForward));
    assert_eq!(pull_action(false, false), Err(GwfError::MergeRequired));
}

#[test]
fn release_tag_texts() {
    assert_eq!(gwf::workflow::release_tag("1.4.0"), "v1.4.0");
    assert_eq!(gwf::workflow::release_tag_message("1.4.0"), "Release v1.4.0");
}

#[test]
fn init_and_feature_checks() {
    assert_eq!(check_init(true, false), Err(GwfError::AlreadyInitialized));
    assert_eq!(check_init(true, true), Ok(()));
    assert_eq!(check_init(false, false), Ok(()));
    assert_eq!(
        gitignore_update("target/\n").as_deref(),
        Some("target/\n\n# GWF configuration\n.gwf.toml\n")
    );
    assert_eq!(gitignore_update("target/\n.gwf.toml\n"), None);
    assert_eq!(on_uncommitted_changes(false, true), ChangesAction::Clean);
    assert_eq!(on_uncommitted_changes(true, true), ChangesAction::Ask);
    assert_eq!(on_uncommitted_changes(true, false), ChangesAction::ProceedWithoutAsking);
    assert_eq!(stash_answer(false), Err(GwfError::Cancelled));
    assert_eq!(stash_answer(true), Ok(()));
}

#[test]
fn gh_arguments() {
    assert_eq!(
        gwf::workflow::gh_pr_args("Add login", "main", false),
        vec!["pr", "create", "--title", "Add login", "--base", "main"]
    );
    assert_eq!(
        gwf::workflow::gh_pr_args("T", "develop", true),
        vec!["pr", "create", "--title", "T", "--base", "develop", "--draft"]
    );
}
