use vstd::prelude::*;

verus! {

/// The whole settings document.
#[derive(Debug, Clone)]
pub struct Config {
    pub workflows: WorkflowConfig,
    pub commits: CommitConfig,
    pub sync: SyncConfig,
    pub cleanup: CleanupConfig,
    pub ai: Option<AiConfig>,
}

/// Branch naming and the long-lived branches.
#[derive(Debug, Clone)]
pub struct WorkflowConfig {
    pub feature_branch_prefix: String,
    pub hotfix_branch_prefix: String,
    pub release_branch_prefix: String,
    pub main_branch: String,
    pub develop_branch: Option<String>,
}

/// How commits are written.
#[derive(Debug, Clone)]
pub struct CommitConfig {
    pub conventional: bool,
    pub sign_commits: bool,
    pub gpg_key: Option<String>,
}

/// How branches are brought up to date with their upstream.
#[derive(Debug, Clone)]
pub struct SyncConfig {
    pub strategy: SyncStrategy,
    pub auto_stash: bool,
    pub prune_on_fetch: bool,
}

/// Reconciliation of a branch with its remote-tracking counterpart.
#[derive(Debug, Clone, Copy, PartialEq, Eq, Structural)]
pub enum SyncStrategy {
    Rebase,
    Merge,
}

/// Which branches cleanup may remove.
#[derive(Debug, Clone)]
pub struct CleanupConfig {
    pub delete_merged: bool,
    pub days_until_stale: u32,
    pub protect_branches: Vec<String>,
}

/// Settings of the (not yet available) message assistant.
#[derive(Debug, Clone)]
pub struct AiConfig {
    pub enabled: bool,
    pub provider: String,
    pub model: String,
    pub api_key: Option<String>,
}

/// The branch names protected from cleanup out of the box.
pub open spec fn default_protected() -> Seq<Seq<char>> {
    seq!["main"@, "master"@, "develop"@, "production"@]
}

impl Config {
    /// The built-in settings used when no settings document exists.
    pub open spec fn is_default(&self) -> bool {
        &&& self.workflows.feature_branch_prefix@ == "feature/"@
        &&& self.workflows.hotfix_branch_prefix@ == "hotfix/"@
        &&& self.workflows.release_branch_prefix@ == "release/"@
        &&& self.workflows.main_branch@ == "main"@
        &&& self.workflows.develop_branch matches Some(d) && d@ == "develop"@
        &&& self.commits.conventional
        &&& !self.commits.sign_commits
        &&& self.commits.gpg_key is None
        &&& self.sync.strategy == SyncStrategy::Rebase
        &&& self.sync.auto_stash
        &&& self.sync.prune_on_fetch
        &&& self.cleanup.delete_merged
        &&& self.cleanup.days_until_stale == 30
        &&& self.cleanup.protect_branches@.map_values(|b: String| b@) == default_protected()
        &&& self.ai is None
    }
}

impl Default for Config {
    fn default() -> (r: Self)
        ensures
            r.is_default(),
    {
        let mut protect_branches: Vec<String> = Vec::new();
        protect_branches.push(String::from_str("main"));
        protect_branches.push(String::from_str("master"));
        protect_branches.push(String::from_str("develop"));
        protect_branches.push(String::from_str("production"));
        let r = Config {
            workflows: WorkflowConfig {
                feature_branch_prefix: String::from_str("feature/"),
                hotfix_branch_prefix: String::from_str("hotfix/"),
                release_branch_prefix: String::from_str("release/"),
                main_branch: String::from_str("main"),
                develop_branch: Some(String::from_str("develop")),
            },
            commits: CommitConfig { conventional: true, sign_commits: false, gpg_key: None },
            sync: SyncConfig { strategy: SyncStrategy::Rebase, auto_stash: true, prune_on_fetch: true },
            cleanup: CleanupConfig {
                delete_merged: true,
                days_until_stale: 30,
                protect_branches,
            },
            ai: None,
        };
        assert(r.cleanup.protect_branches@.map_values(|b: String| b@) =~= default_protected());
        r
    }
}

} // verus!
