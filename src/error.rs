use vstd::prelude::*;

verus! {

/// What can go wrong in a workflow.
#[derive(Debug, Clone, PartialEq, Eq)]
pub enum GwfError {
    /// The working directory is not inside a Git repository.
    NotARepository,
    /// HEAD does not point to a branch.
    DetachedHead,
    /// A branch name that is not valid UTF-8.
    UnreadableBranchName,
    /// The named branch does not exist.
    BranchNotFound(String),
    /// A branch of that name exists already.
    AlreadyExists(String),
    /// The named remote does not exist.
    RemoteNotFound(String),
    /// A subprocess exited with failure.
    SubprocessFailure { command: String, stderr: String },
    /// The settings document could not be read.
    ConfigParseError(String),
    /// A prompt was needed but no terminal is attached.
    NonInteractiveInputRequired,
    /// A pull request was asked for from the main branch itself.
    PullRequestFromMainBranch,
    /// Bringing in the fetched commits needs a real merge.
    MergeRequired,
    /// The user declined to go on.
    Cancelled,
    /// A settings document exists already and reinitializing was not forced.
    AlreadyInitialized,
}

} // verus!
