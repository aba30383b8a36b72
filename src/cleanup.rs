use vstd::prelude::*;
use crate::text::{same_text, texts};

verus! {

/// A branch is never proposed for deletion when it is checked out or protected.
pub open spec fn excluded(branch: Seq<char>, current: Seq<char>, protected: Seq<Seq<char>>) -> bool {
    protected.contains(branch) || branch == current
}

/// The branches proposed for deletion, in listing order: those neither
/// excluded nor unmerged. `merged[i]` tells whether `branches[i]` is merged
/// into the main branch.
pub open spec fn deletable(
    branches: Seq<Seq<char>>,
    merged: Seq<bool>,
    current: Seq<char>,
    protected: Seq<Seq<char>>,
) -> Seq<Seq<char>>
    decreases branches.len(),
{
    if branches.len() == 0 || merged.len() != branches.len() {
        Seq::empty()
    } else {
        let prev = deletable(branches.drop_last(), merged.drop_last(), current, protected);
        if !excluded(branches.last(), current, protected) && merged.last() {
            prev.push(branches.last())
        } else {
            prev
        }
    }
}

/// Merge status from commit identifiers: a branch is merged into a target
/// exactly when their merge base is the branch's own tip.
pub open spec fn merge_flags(tips: Seq<Seq<u8>>, bases: Seq<Seq<u8>>) -> Seq<bool> {
    Seq::new(tips.len(), |i: int| tips[i] == bases[i])
}

/// What cleanup does once the candidates are known.
#[derive(Debug, Clone, Copy, PartialEq, Eq, Structural)]
pub enum CleanupDecision {
    /// Nothing qualifies: report that there are no branches to clean up.
    NothingToClean,
    /// Dry run: list the candidates and delete nothing.
    ReportOnly,
    /// Ask the user before deleting.
    Confirm,
    /// No terminal to ask on: skip deletion.
    SkipNonInteractive,
    /// Leave everything as it is.
    Cancelled,
    /// Delete the candidates, each on its own, then prune remote-tracking
    /// branches when asked to.
    Delete { prune_remote: bool },
}

/// The decision for `candidates` branches under the command's flags.
pub open spec fn decide(candidates: nat, dry_run: bool, yes: bool, interactive: bool, remote: bool) -> CleanupDecision {
    if candidates == 0 {
        CleanupDecision::NothingToClean
    } else if dry_run {
        CleanupDecision::ReportOnly
    } else if yes {
        CleanupDecision::Delete { prune_remote: remote }
    } else if interactive {
        CleanupDecision::Confirm
    } else {
        CleanupDecision::SkipNonInteractive
    }
}

/// Whether `branch` is named in `protected`.
fn is_listed(branch: &str, protected: &Vec<String>) -> (r: bool)
    ensures
        r == texts(protected@).contains(branch@),
{
    let mut i: usize = 0;
    while i < protected.len()
        invariant
            i <= protected@.len(),
            forall|j: int| 0 <= j < i ==> protected@[j]@ != branch@,
        decreases protected@.len() - i,
    {
        if same_text(protected[i].as_str(), branch) {
            assert(texts(protected@)[i as int] == branch@);
            return true;
        }
        i = i + 1;
    }
    assert forall|j: int| 0 <= j < texts(protected@).len() implies texts(protected@)[j] != branch@ by {
        assert(protected@[j]@ != branch@);
    }
    false
}

/// Whether cleanup looks at `branch` at all: it is neither the current
/// branch nor protected.
pub fn is_cleanup_candidate(branch: &str, current: &str, protected: &Vec<String>) -> (r: bool)
    ensures
        r == !excluded(branch@, current@, texts(protected@)),
{
    !(is_listed(branch, protected) || same_text(branch, current))
}

/// Whether a branch is merged, from its tip and its merge base with the
/// target branch (commit identifiers as bytes).
pub fn is_merged(tip: &Vec<u8>, merge_base: &Vec<u8>) -> (r: bool)
    ensures
        r == (tip@ == merge_base@),
{
    if tip.len() != merge_base.len() {
        return false;
    }
    let mut i: usize = 0;
    while i < tip.len()
        invariant
            tip@.len() == merge_base@.len(),
            i <= tip@.len(),
            forall|j: int| 0 <= j < i ==> tip@[j] == merge_base@[j],
        decreases tip@.len() - i,
    {
        if tip[i] != merge_base[i] {
            return false;
        }
        i = i + 1;
    }
    assert(tip@ =~= merge_base@);
    true
}

/// The branches to delete: in listing order, each branch that is neither
/// current nor protected and whose merge flag is set.
pub fn select_branches(
    branches: &Vec<String>,
    current: &str,
    protected: &Vec<String>,
    merged: &Vec<bool>,
) -> (r: Vec<String>)
    requires
        merged@.len() == branches@.len(),
    ensures
        texts(r@) == deletable(texts(branches@), merged@, current@, texts(protected@)),
{
    let mut out: Vec<String> = Vec::new();
    let mut i: usize = 0;
    while i < branches.len()
        invariant
            merged@.len() == branches@.len(),
            i <= branches@.len(),
            texts(out@) == deletable(
                texts(branches@).take(i as int),
                merged@.take(i as int),
                current@,
                texts(protected@),
            ),
        decreases branches@.len() - i,
    {
        let ghost bs = texts(branches@).take(i + 1);
        let ghost ms = merged@.take(i + 1);
        assert(bs.drop_last() =~= texts(branches@).take(i as int));
        assert(ms.drop_last() =~= merged@.take(i as int));
        let ghost before = out@;
        if is_cleanup_candidate(branches[i].as_str(), current, protected) && merged[i] {
            out.push(String::from_str(branches[i].as_str()));
            assert(texts(out@) =~= texts(before).push(branches@[i as int]@));
        }
        i = i + 1;
    }
    assert(texts(branches@).take(i as int) =~= texts(branches@));
    assert(merged@.take(i as int) =~= merged@);
    out
}

/// What cleanup does with `candidates` branches to delete.
pub fn cleanup_decision(candidates: usize, dry_run: bool, yes: bool, interactive: bool, remote: bool) -> (r: CleanupDecision)
    ensures
        r == decide(candidates as nat, dry_run, yes, interactive, remote),
{
    if candidates == 0 {
        CleanupDecision::NothingToClean
    } else if dry_run {
        CleanupDecision::ReportOnly
    } else if yes {
        CleanupDecision::Delete { prune_remote: remote }
    } else if interactive {
        CleanupDecision::Confirm
    } else {
        CleanupDecision::SkipNonInteractive
    }
}

/// The decision once the user has answered the confirmation prompt.
pub fn confirmed(answer: bool, remote: bool) -> (r: CleanupDecision)
    ensures
        r == (if answer {
            CleanupDecision::Delete { prune_remote: remote }
        } else {
            CleanupDecision::Cancelled
        }),
{
    if answer {
        CleanupDecision::Delete { prune_remote: remote }
    } else {
        CleanupDecision::Cancelled
    }
}

proof fn lemma_deletable_members(
    branches: Seq<Seq<char>>,
    merged: Seq<bool>,
    current: Seq<char>,
    protected: Seq<Seq<char>>,
)
    requires
        merged.len() == branches.len(),
    ensures
        forall|b: Seq<char>| #[trigger]
            deletable(branches, merged, current, protected).contains(b) <==> exists|i: int|
                0 <= i < branches.len() && branches[i] == b && !excluded(b, current, protected)
                    && merged[i],
    decreases branches.len(),
{
    if branches.len() > 0 {
        let bs = branches.drop_last();
        let ms = merged.drop_last();
        lemma_deletable_members(bs, ms, current, protected);
        let prev = deletable(bs, ms, current, protected);
        let n = branches.len() - 1;
        assert forall|b: Seq<char>| #[trigger]
            deletable(branches, merged, current, protected).contains(b) <==> exists|i: int|
                0 <= i < branches.len() && branches[i] == b && !excluded(b, current, protected)
                    && merged[i] by {
            if deletable(branches, merged, current, protected).contains(b) {
                if prev.contains(b) {
                    let i = choose|i: int|
                        0 <= i < bs.len() && bs[i] == b && !excluded(b, current, protected)
                            && ms[i];
                    assert(branches[i] == b && merged[i]);
                } else {
                    assert(b == branches[n]);
                    assert(branches[n] == b && merged[n]);
                }
            }
            if exists|i: int|
                0 <= i < branches.len() && branches[i] == b && !excluded(b, current, protected)
                    && merged[i] {
                let i = choose|i: int|
                    0 <= i < branches.len() && branches[i] == b && !excluded(
                        b,
                        current,
                        protected,
                    ) && merged[i];
                if i < n {
                    assert(bs[i] == b && ms[i]);
                    assert(prev.contains(b));
                    if !excluded(branches.last(), current, protected) && merged.last() {
                        assert(prev.push(branches.last())[prev.index_of(b)] == b);
                    }
                } else {
                    assert(deletable(branches, merged, current, protected).last() == b);
                }
            }
        }
    }
}

/// A branch that is neither current nor protected, and whose merge base with
/// the main branch is its own tip, is proposed for deletion.
pub proof fn lemma_merged_branch_is_deletable(
    branches: Seq<Seq<char>>,
    tips: Seq<Seq<u8>>,
    bases: Seq<Seq<u8>>,
    current: Seq<char>,
    protected: Seq<Seq<char>>,
    i: int,
)
    requires
        tips.len() == branches.len(),
        bases.len() == branches.len(),
        0 <= i < branches.len(),
        !excluded(branches[i], current, protected),
        bases[i] == tips[i],
    ensures
        deletable(branches, merge_flags(tips, bases), current, protected).contains(branches[i]),
{
    lemma_deletable_members(branches, merge_flags(tips, bases), current, protected);
    assert(merge_flags(tips, bases)[i]);
}

/// The current branch and every protected branch are never proposed for
/// deletion, whatever their merge status.
pub proof fn lemma_excluded_never_deletable(
    branches: Seq<Seq<char>>,
    merged: Seq<bool>,
    current: Seq<char>,
    protected: Seq<Seq<char>>,
    b: Seq<char>,
)
    requires
        merged.len() == branches.len(),
        b == current || protected.contains(b),
    ensures
        !deletable(branches, merged, current, protected).contains(b),
{
    lemma_deletable_members(branches, merged, current, protected);
}

/// A dry run never reaches deletion, nor the prompt that leads to it.
pub proof fn lemma_dry_run_never_deletes(candidates: nat, yes: bool, interactive: bool, remote: bool)
    ensures
        !(decide(candidates, true, yes, interactive, remote) is Delete),
        decide(candidates, true, yes, interactive, remote) != CleanupDecision::Confirm,
{
}

} // verus!
