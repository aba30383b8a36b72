//! Decision logic of a Git branching-workflow tool: configuration,
//! branch cleanup selection, the branch-sync session, semantic versions,
//! commit and pull-request text, and the parsing of Git's report output.
//! Talking to the repository, the terminal and subprocesses is left to the
//! caller, which hands plain values in and performs what comes back.

pub mod about;
pub mod config;
pub mod error;
pub mod text;
pub mod version;
pub mod cleanup;
pub mod sync;
pub mod workflow;
pub mod report;
pub mod stats;
pub mod choice;
pub mod verbosity;
