use vstd::prelude::*;
use crate::config::{SyncConfig, SyncStrategy};
use crate::text::{copy_text, texts};

verus! {

/// Where a sync session stands.
#[derive(Debug, Clone, Copy, PartialEq, Eq, Structural)]
pub enum SyncPhase {
    /// Asking whether the working tree has uncommitted changes.
    Inspect,
    /// Stashing those changes.
    Stash,
    /// Checking out the branch.
    Checkout,
    /// Rebasing or merging onto the remote-tracking branch.
    Reconcile,
    /// Aborting an unfinished rebase.
    AbortRebase,
    /// Aborting an unfinished merge.
    AbortMerge,
    /// Bringing the stashed changes back.
    RestoreStash,
    /// Pruning remote-tracking branches.
    Prune,
    /// Nothing more to do.
    Finished,
}

/// What the caller reports after performing a command.
#[derive(Debug, Clone, Copy, PartialEq, Eq, Structural)]
pub enum SyncEvent {
    /// The answer to `InspectChanges`: whether there are uncommitted changes.
    Changes(bool),
    /// The command ran and succeeded.
    Completed,
    /// The command ran and failed.
    Failed,
    /// The command could not be started.
    NotRun,
}

/// The next thing the caller must do.
#[derive(Debug, Clone, PartialEq, Eq)]
pub enum SyncCommand {
    InspectChanges,
    Stash,
    Checkout(String),
    /// Rebase onto this upstream.
    Rebase(String),
    /// Merge this upstream.
    Merge(String),
    AbortRebase,
    AbortMerge,
    RestoreStash,
    Prune,
    Finished,
}

/// A run of the sync workflow over a list of branches.
#[derive(Debug, Clone)]
pub struct SyncSession {
    pub branches: Vec<String>,
    pub strategy: SyncStrategy,
    pub auto_stash: bool,
    pub prune_on_fetch: bool,
    /// The branch being worked on (the number of branches once all are done).
    pub index: usize,
    pub phase: SyncPhase,
    /// Whether changes were stashed for the current branch.
    pub stashed: bool,
    /// The branches whose rebase or merge did not succeed, in order.
    pub failed: Vec<String>,
}

/// A sync session as plain values.
pub struct SyncView {
    pub branches: Seq<Seq<char>>,
    pub strategy: SyncStrategy,
    pub auto_stash: bool,
    pub prune_on_fetch: bool,
    pub index: nat,
    pub phase: SyncPhase,
    pub stashed: bool,
    pub failed: Seq<Seq<char>>,
}

impl View for SyncSession {
    type V = SyncView;

    open spec fn view(&self) -> SyncView {
        SyncView {
            branches: texts(self.branches@),
            strategy: self.strategy,
            auto_stash: self.auto_stash,
            prune_on_fetch: self.prune_on_fetch,
            index: self.index as nat,
            phase: self.phase,
            stashed: self.stashed,
            failed: texts(self.failed@),
        }
    }
}

/// The phases that work on one branch.
pub open spec fn on_branch(p: SyncPhase) -> bool {
    !(p == SyncPhase::Prune || p == SyncPhase::Finished)
}

/// Well-formed: a phase that works on a branch has one to work on.
pub open spec fn sync_wf(s: SyncView) -> bool {
    &&& s.index <= s.branches.len()
    &&& on_branch(s.phase) ==> s.index < s.branches.len()
    &&& s.stashed ==> on_branch(s.phase)
}

/// The remote-tracking branch that `branch` is reconciled with.
pub open spec fn upstream(branch: Seq<char>) -> Seq<char> {
    "origin/"@ + branch
}

/// The phase after all branches are done.
pub open spec fn closing_phase(prune_on_fetch: bool) -> SyncPhase {
    if prune_on_fetch {
        SyncPhase::Prune
    } else {
        SyncPhase::Finished
    }
}

/// The start of the session: the first branch, or the closing phase when
/// there is none.
pub open spec fn start(branches: Seq<Seq<char>>, config: SyncConfig) -> SyncView {
    SyncView {
        branches,
        strategy: config.strategy,
        auto_stash: config.auto_stash,
        prune_on_fetch: config.prune_on_fetch,
        index: 0,
        phase: if branches.len() > 0 {
            SyncPhase::Inspect
        } else {
            closing_phase(config.prune_on_fetch)
        },
        stashed: false,
        failed: Seq::empty(),
    }
}

/// Moving on to the next branch, or to the closing phase after the last.
pub open spec fn next_branch(s: SyncView) -> SyncView {
    SyncView {
        index: s.index + 1,
        phase: if s.index + 1 < s.branches.len() {
            SyncPhase::Inspect
        } else {
            closing_phase(s.prune_on_fetch)
        },
        stashed: false,
        ..s
    }
}

/// Once a branch is reconciled or its attempt cleaned up: restore stashed
/// changes first, if any, then move on.
pub open spec fn after_branch(s: SyncView) -> SyncView {
    if s.stashed {
        SyncView { phase: SyncPhase::RestoreStash, ..s }
    } else {
        next_branch(s)
    }
}

/// The current branch recorded as not synchronized.
pub open spec fn record_failure(s: SyncView) -> SyncView {
    SyncView { failed: s.failed.push(s.branches[s.index as int]), ..s }
}

/// One transition of the session on the event reported for its command.
pub open spec fn step(s: SyncView, e: SyncEvent) -> SyncView {
    match s.phase {
        SyncPhase::Inspect => if e == SyncEvent::Changes(true) && s.auto_stash {
            SyncView { phase: SyncPhase::Stash, stashed: true, ..s }
        } else {
            SyncView { phase: SyncPhase::Checkout, stashed: false, ..s }
        },
        SyncPhase::Stash => SyncView { phase: SyncPhase::Checkout, ..s },
        SyncPhase::Checkout => SyncView { phase: SyncPhase::Reconcile, ..s },
        SyncPhase::Reconcile => if e == SyncEvent::Completed {
            after_branch(s)
        } else {
            SyncView { phase: SyncPhase::AbortRebase, ..record_failure(s) }
        },
        SyncPhase::AbortRebase => SyncView { phase: SyncPhase::AbortMerge, ..s },
        SyncPhase::AbortMerge => after_branch(s),
        SyncPhase::RestoreStash => next_branch(s),
        SyncPhase::Prune => SyncView { phase: SyncPhase::Finished, ..s },
        SyncPhase::Finished => s,
    }
}

/// The command that goes with a state.
pub open spec fn command_for(c: SyncCommand, s: SyncView) -> bool {
    match s.phase {
        SyncPhase::Inspect => c == SyncCommand::InspectChanges,
        SyncPhase::Stash => c == SyncCommand::Stash,
        SyncPhase::Checkout => c matches SyncCommand::Checkout(b) && b@ == s.branches[s.index as int],
        SyncPhase::Reconcile => match s.strategy {
            SyncStrategy::Rebase => c matches SyncCommand::Rebase(u) && u@ == upstream(
                s.branches[s.index as int],
            ),
            SyncStrategy::Merge => c matches SyncCommand::Merge(u) && u@ == upstream(
                s.branches[s.index as int],
            ),
        },
        SyncPhase::AbortRebase => c == SyncCommand::AbortRebase,
        SyncPhase::AbortMerge => c == SyncCommand::AbortMerge,
        SyncPhase::RestoreStash => c == SyncCommand::RestoreStash,
        SyncPhase::Prune => c == SyncCommand::Prune,
        SyncPhase::Finished => c == SyncCommand::Finished,
    }
}

impl SyncSession {
    /// A session over `branches` with the given settings.
    pub fn new(branches: Vec<String>, config: &SyncConfig) -> (r: SyncSession)
        ensures
            r@ == start(texts(branches@), *config),
            sync_wf(r@),
    {
        let n = branches.len();
        let phase = if n > 0 {
            SyncPhase::Inspect
        } else if config.prune_on_fetch {
            SyncPhase::Prune
        } else {
            SyncPhase::Finished
        };
        let r = SyncSession {
            branches,
            strategy: config.strategy,
            auto_stash: config.auto_stash,
            prune_on_fetch: config.prune_on_fetch,
            index: 0,
            phase,
            stashed: false,
            failed: Vec::new(),
        };
        assert(texts(r.failed@) =~= Seq::<Seq<char>>::empty());
        r
    }

    /// What the caller must do now.
    pub fn command(&self) -> (r: SyncCommand)
        requires
            sync_wf(self@),
        ensures
            command_for(r, self@),
    {
        match self.phase {
            SyncPhase::Inspect => SyncCommand::InspectChanges,
            SyncPhase::Stash => SyncCommand::Stash,
            SyncPhase::Checkout => SyncCommand::Checkout(copy_text(&self.branches[self.index])),
            SyncPhase::Reconcile => {
                let u = String::from_str("origin/").concat(self.branches[self.index].as_str());
                match self.strategy {
                    SyncStrategy::Rebase => SyncCommand::Rebase(u),
                    SyncStrategy::Merge => SyncCommand::Merge(u),
                }
            },
            SyncPhase::AbortRebase => SyncCommand::AbortRebase,
            SyncPhase::AbortMerge => SyncCommand::AbortMerge,
            SyncPhase::RestoreStash => SyncCommand::RestoreStash,
            SyncPhase::Prune => SyncCommand::Prune,
            SyncPhase::Finished => SyncCommand::Finished,
        }
    }

    /// Whether the session is over.
    pub fn is_finished(&self) -> (r: bool)
        ensures
            r == (self.phase == SyncPhase::Finished),
    {
        self.phase == SyncPhase::Finished
    }

    fn go_to_next_branch(&mut self)
        requires
            sync_wf(old(self)@),
            on_branch(old(self).phase),
        ensures
            final(self)@ == next_branch(old(self)@),
    {
        let n = self.branches.len();
        self.index = self.index + 1;
        self.stashed = false;
        if self.index < n {
            self.phase = SyncPhase::Inspect;
        } else if self.prune_on_fetch {
            self.phase = SyncPhase::Prune;
        } else {
            self.phase = SyncPhase::Finished;
        }
    }

    fn finish_branch(&mut self)
        requires
            sync_wf(old(self)@),
            on_branch(old(self).phase),
        ensures
            final(self)@ == after_branch(old(self)@),
    {
        if self.stashed {
            self.phase = SyncPhase::RestoreStash;
        } else {
            self.go_to_next_branch();
        }
    }

    fn note_failure(&mut self)
        requires
            sync_wf(old(self)@),
            on_branch(old(self).phase),
        ensures
            final(self)@ == record_failure(old(self)@),
    {
        let b = copy_text(&self.branches[self.index]);
        let ghost before = self.failed@;
        self.failed.push(b);
        assert(texts(self.failed@) =~= texts(before).push(b@));
    }

    /// Takes in the outcome of the current command and moves on.
    pub fn advance(&mut self, event: SyncEvent)
        requires
            sync_wf(old(self)@),
        ensures
            final(self)@ == step(old(self)@, event),
            sync_wf(final(self)@),
    {
        match self.phase {
            SyncPhase::Inspect => {
                if event == SyncEvent::Changes(true) && self.auto_stash {
                    self.phase = SyncPhase::Stash;
                    self.stashed = true;
                } else {
                    self.phase = SyncPhase::Checkout;
                    self.stashed = false;
                }
            },
            SyncPhase::Stash => {
                self.phase = SyncPhase::Checkout;
            },
            SyncPhase::Checkout => {
                self.phase = SyncPhase::Reconcile;
            },
            SyncPhase::Reconcile => {
                if event == SyncEvent::Completed {
                    self.finish_branch();
                } else {
                    self.note_failure();
                    self.phase = SyncPhase::AbortRebase;
                }
            },
            SyncPhase::AbortRebase => {
                self.phase = SyncPhase::AbortMerge;
            },
            SyncPhase::AbortMerge => {
                self.finish_branch();
            },
            SyncPhase::RestoreStash => {
                self.go_to_next_branch();
            },
            SyncPhase::Prune => {
                self.phase = SyncPhase::Finished;
            },
            SyncPhase::Finished => {},
        }
    }
}

/// Which branches a sync run covers.
#[derive(Debug, Clone, PartialEq, Eq)]
pub enum SyncTargets {
    /// Every local branch.
    AllLocal,
    /// The one branch named.
    Named(String),
    /// The branch checked out.
    Current,
}

/// All local branches when asked for, else the branch named, else the
/// current one.
pub fn sync_targets(all: bool, branch: Option<String>) -> (r: SyncTargets)
    ensures
        all ==> r == SyncTargets::AllLocal,
        !all && branch is Some ==> (r matches SyncTargets::Named(b) && b@ == branch.unwrap()@),
        !all && branch is None ==> r == SyncTargets::Current,
{
    if all {
        SyncTargets::AllLocal
    } else {
        match branch {
            Some(b) => SyncTargets::Named(b),
            None => SyncTargets::Current,
        }
    }
}

/// The state after a branch's rebase or merge did not succeed (`e0`) and
/// then the clean-up commands, whatever the events reported for those.
pub open spec fn after_failure(s: SyncView, e0: SyncEvent, e1: SyncEvent, e2: SyncEvent, e3: SyncEvent) -> SyncView {
    let s3 = step(step(step(s, e0), e1), e2);
    if s.stashed {
        step(s3, e3)
    } else {
        s3
    }
}

/// When a branch's rebase or merge fails or cannot be started, the session
/// aborts both an unfinished rebase and an unfinished merge, restores stashed
/// changes, records the branch as failed, and goes on with the next branch
/// (or to the closing phase after the last one).
pub proof fn lemma_failure_aborts_then_continues(
    s: SyncView,
    e0: SyncEvent,
    e1: SyncEvent,
    e2: SyncEvent,
    e3: SyncEvent,
)
    requires
        sync_wf(s),
        s.phase == SyncPhase::Reconcile,
        e0 != SyncEvent::Completed,
    ensures
        step(s, e0).phase == SyncPhase::AbortRebase,
        step(step(s, e0), e1).phase == SyncPhase::AbortMerge,
        s.stashed ==> step(step(step(s, e0), e1), e2).phase == SyncPhase::RestoreStash,
        after_failure(s, e0, e1, e2, e3).index == s.index + 1,
        after_failure(s, e0, e1, e2, e3).failed == s.failed.push(s.branches[s.index as int]),
        s.index + 1 < s.branches.len() ==> after_failure(s, e0, e1, e2, e3).phase
            == SyncPhase::Inspect,
        s.index + 1 == s.branches.len() ==> after_failure(s, e0, e1, e2, e3).phase
            == closing_phase(s.prune_on_fetch),
        sync_wf(after_failure(s, e0, e1, e2, e3)),
{
}

/// Every step keeps the session well-formed.
pub proof fn lemma_step_wf(s: SyncView, e: SyncEvent)
    requires
        sync_wf(s),
    ensures
        sync_wf(step(s, e)),
{
}

} // verus!
