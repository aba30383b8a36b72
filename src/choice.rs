use vstd::prelude::*;
use crate::text::{strip_leading, strip_leading_text, texts};
use crate::version::{
    bumpable, bumped, lemma_bump_newer_and_resets, newer, render, Bump, Version, VersionView,
};

verus! {

/// The entries of the tag menu.
#[derive(Debug, Clone, Copy, PartialEq, Eq, Structural)]
pub enum TagChoice {
    Bump(Bump),
    Custom,
    ListTags,
    Cancel,
}

/// The tag menu entry selected first: a patch release.
pub const DEFAULT_TAG_CHOICE: usize = 2;

/// The tag menu entry at position `selection`.
pub open spec fn tag_choice_of(selection: nat) -> TagChoice {
    if selection == 0 {
        TagChoice::Bump(Bump::Major)
    } else if selection == 1 {
        TagChoice::Bump(Bump::Minor)
    } else if selection == 2 {
        TagChoice::Bump(Bump::Patch)
    } else if selection == 3 {
        TagChoice::Custom
    } else if selection == 4 {
        TagChoice::ListTags
    } else {
        TagChoice::Cancel
    }
}

/// The tag menu entry at position `selection`.
pub fn tag_choice(selection: usize) -> (r: TagChoice)
    ensures
        r == tag_choice_of(selection as nat),
{
    if selection == 0 {
        TagChoice::Bump(Bump::Major)
    } else if selection == 1 {
        TagChoice::Bump(Bump::Minor)
    } else if selection == 2 {
        TagChoice::Bump(Bump::Patch)
    } else if selection == 3 {
        TagChoice::Custom
    } else if selection == 4 {
        TagChoice::ListTags
    } else {
        TagChoice::Cancel
    }
}

/// The version a bump entry offers, or `None` where the component is
/// already at its largest value.
pub fn offered_version(latest: &Version, kind: Bump) -> (r: Option<Version>)
    ensures
        match r {
            Some(v) => bumpable(latest@, kind) && v@ == bumped(latest@, kind),
            None => !bumpable(latest@, kind),
        },
{
    if latest.can_bump(kind) {
        Some(latest.bump(kind))
    } else {
        None
    }
}

/// The default message of a version's tag: `Release ` then the version.
pub fn tag_message(v: &Version) -> (r: String)
    ensures
        r@ == "Release "@ + render(v@),
{
    String::from_str("Release ").concat(v.to_text().as_str())
}

/// The number of tags the listing shows.
pub const LISTED_TAGS: usize = 10;

/// The tag listing: tag names without `refs/tags/`, newest reference first
/// (the reverse of the given order), at most ten.
pub open spec fn listed_tags_of(refs: Seq<Seq<char>>) -> Seq<Seq<char>> {
    Seq::new(
        if refs.len() < LISTED_TAGS {
            refs.len()
        } else {
            LISTED_TAGS as nat
        },
        |i: int| strip_leading(refs[refs.len() - 1 - i], "refs/tags/"@),
    )
}

/// The tag names to list, from the tag references in repository order.
pub fn listed_tags(refs: &Vec<String>) -> (r: Vec<String>)
    ensures
        texts(r@) == listed_tags_of(texts(refs@)),
{
    let n = refs.len();
    let count = if n < LISTED_TAGS {
        n
    } else {
        LISTED_TAGS
    };
    let mut out: Vec<String> = Vec::new();
    let mut i: usize = 0;
    while i < count
        invariant
            n == refs@.len(),
            count <= n,
            i <= count,
            count == (if n < LISTED_TAGS {
                n
            } else {
                LISTED_TAGS
            }),
            texts(out@) =~= listed_tags_of(texts(refs@)).take(i as int),
        decreases count - i,
    {
        let ghost before = out@;
        let name = strip_leading_text(refs[n - 1 - i].as_str(), "refs/tags/");
        out.push(name);
        assert(texts(out@) =~= texts(before).push(name@));
        i = i + 1;
    }
    out
}

/// The entries of the bisect menu.
#[derive(Debug, Clone, Copy, PartialEq, Eq, Structural)]
pub enum BisectAction {
    Start,
    MarkGood,
    MarkBad,
    Skip,
    Reset,
    Automated,
}

/// The bisect menu entry at position `selection`, if there is one.
pub fn bisect_action(selection: usize) -> (r: Option<BisectAction>)
    ensures
        selection == 0 ==> r == Some(BisectAction::Start),
        selection == 1 ==> r == Some(BisectAction::MarkGood),
        selection == 2 ==> r == Some(BisectAction::MarkBad),
        selection == 3 ==> r == Some(BisectAction::Skip),
        selection == 4 ==> r == Some(BisectAction::Reset),
        selection == 5 ==> r == Some(BisectAction::Automated),
        selection > 5 ==> r is None,
{
    if selection == 0 {
        Some(BisectAction::Start)
    } else if selection == 1 {
        Some(BisectAction::MarkGood)
    } else if selection == 2 {
        Some(BisectAction::MarkBad)
    } else if selection == 3 {
        Some(BisectAction::Skip)
    } else if selection == 4 {
        Some(BisectAction::Reset)
    } else if selection == 5 {
        Some(BisectAction::Automated)
    } else {
        None
    }
}

/// The entries of the undo menu.
#[derive(Debug, Clone, Copy, PartialEq, Eq, Structural)]
pub enum UndoAction {
    /// Undo the last commit and keep its changes.
    KeepChanges,
    /// Undo the last commit and discard its changes (asks first).
    DiscardChanges,
    /// Undo the last merge (asks first).
    UndoMerge,
    /// Abort a merge under way.
    AbortMerge,
    Cancel,
}

/// The undo menu entry at position `selection`.
pub fn undo_action(selection: usize) -> (r: UndoAction)
    ensures
        selection == 0 ==> r == UndoAction::KeepChanges,
        selection == 1 ==> r == UndoAction::DiscardChanges,
        selection == 2 ==> r == UndoAction::UndoMerge,
        selection == 3 ==> r == UndoAction::AbortMerge,
        selection > 3 ==> r == UndoAction::Cancel,
{
    if selection == 0 {
        UndoAction::KeepChanges
    } else if selection == 1 {
        UndoAction::DiscardChanges
    } else if selection == 2 {
        UndoAction::UndoMerge
    } else if selection == 3 {
        UndoAction::AbortMerge
    } else {
        UndoAction::Cancel
    }
}

/// Whether an undo entry discards work and so asks before it runs: the hard
/// resets.
pub fn needs_confirmation(a: UndoAction) -> (r: bool)
    ensures
        r == (a == UndoAction::DiscardChanges || a == UndoAction::UndoMerge),
{
    match a {
        UndoAction::DiscardChanges | UndoAction::UndoMerge => true,
        _ => false,
    }
}

/// The bump entries of the tag menu: the first three entries bump major,
/// minor and patch; the version offered is newer than the latest, keeps the
/// components above the bumped one and resets those below.
pub proof fn lemma_tag_menu_bumps(selection: nat, latest: VersionView)
    requires
        selection <= 2,
    ensures
        tag_choice_of(selection) matches TagChoice::Bump(kind) && (bumpable(latest, kind) ==> {
            &&& newer(bumped(latest, kind), latest)
            &&& selection == 0 ==> bumped(latest, kind).0 == latest.0 + 1
                && bumped(latest, kind).1 == 0 && bumped(latest, kind).2 == 0
            &&& selection == 1 ==> bumped(latest, kind).0 == latest.0
                && bumped(latest, kind).1 == latest.1 + 1 && bumped(latest, kind).2 == 0
            &&& selection == 2 ==> bumped(latest, kind).0 == latest.0
                && bumped(latest, kind).1 == latest.1 && bumped(latest, kind).2 == latest.2 + 1
        }),
{
    let kind = if selection == 0 {
        Bump::Major
    } else if selection == 1 {
        Bump::Minor
    } else {
        Bump::Patch
    };
    if bumpable(latest, kind) {
        lemma_bump_newer_and_resets(latest, kind);
    }
}

} // verus!
