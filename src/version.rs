use vstd::prelude::*;
use crate::text::{decimal, push_decimal, strip_leading, strip_leading_text, texts, trim_of, trimmed};

verus! {

/// A semantic version: three numeric components, then the pre-release and
/// build-metadata texts (empty when absent).
#[derive(Debug, Clone)]
pub struct Version {
    pub major: u64,
    pub minor: u64,
    pub patch: u64,
    pub pre: String,
    pub build: String,
}

/// A version as plain values: major, minor, patch, pre-release, build metadata.
pub type VersionView = (u64, u64, u64, Seq<char>, Seq<char>);

impl View for Version {
    type V = VersionView;

    open spec fn view(&self) -> VersionView {
        (self.major, self.minor, self.patch, self.pre@, self.build@)
    }
}

/// Which component a release increments.
#[derive(Debug, Clone, Copy, PartialEq, Eq, Structural)]
pub enum Bump {
    Major,
    Minor,
    Patch,
}

/// What `semver::Version::parse` yields for a text, as plain values.
pub uninterp spec fn parsed_semver(text: Seq<char>) -> Option<VersionView>;

/// What semver's ordering of pre-release texts yields (-1, 0 or 1), or
/// `None` where a text is no valid pre-release.
pub uninterp spec fn prerelease_order(a: Seq<char>, b: Seq<char>) -> Option<i8>;

/// What semver's ordering of build-metadata texts yields (-1, 0 or 1), or
/// `None` where a text is no valid build metadata.
pub uninterp spec fn build_order(a: Seq<char>, b: Seq<char>) -> Option<i8>;

/// Relies on `semver::Version::parse`: the text read as a semantic version;
/// the result depends on the text alone.
#[verifier::external_body]
fn parse_semver(text: &str) -> (r: Option<Version>)
    ensures
        match r {
            Some(v) => parsed_semver(text@) == Some(v@),
            None => parsed_semver(text@) is None,
        },
{
    semver::Version::parse(text).ok().map(
        |v| Version {
            major: v.major,
            minor: v.minor,
            patch: v.patch,
            pre: v.pre.as_str().to_string(),
            build: v.build.as_str().to_string(),
        },
    )
}

/// Relies on `semver::Prerelease::new` and its `Ord`: how two pre-release
/// texts are ordered.
#[verifier::external_body]
fn compare_prerelease(a: &str, b: &str) -> (r: Option<i8>)
    ensures
        r == prerelease_order(a@, b@),
{
    match (semver::Prerelease::new(a), semver::Prerelease::new(b)) {
        (Ok(x), Ok(y)) => Some(x.cmp(&y) as i8),
        _ => None,
    }
}

/// Relies on `semver::BuildMetadata::new` and its `Ord`: how two
/// build-metadata texts are ordered.
#[verifier::external_body]
fn compare_build(a: &str, b: &str) -> (r: Option<i8>)
    ensures
        r == build_order(a@, b@),
{
    match (semver::BuildMetadata::new(a), semver::BuildMetadata::new(b)) {
        (Ok(x), Ok(y)) => Some(x.cmp(&y) as i8),
        _ => None,
    }
}

/// Semantic-version precedence: `a` is newer than `b`. Components compare
/// numerically in order; on equal components the pre-release texts decide,
/// then the build metadata.
pub open spec fn newer(a: VersionView, b: VersionView) -> bool {
    if a.0 != b.0 {
        a.0 > b.0
    } else if a.1 != b.1 {
        a.1 > b.1
    } else if a.2 != b.2 {
        a.2 > b.2
    } else if prerelease_order(a.3, b.3) is Some && prerelease_order(a.3, b.3).unwrap() != 0 {
        prerelease_order(a.3, b.3).unwrap() > 0
    } else {
        build_order(a.4, b.4) is Some && build_order(a.4, b.4).unwrap() > 0
    }
}

/// Whether the component that `kind` increments can be incremented.
pub open spec fn bumpable(v: VersionView, kind: Bump) -> bool {
    match kind {
        Bump::Major => v.0 < u64::MAX,
        Bump::Minor => v.1 < u64::MAX,
        Bump::Patch => v.2 < u64::MAX,
    }
}

/// `v` with the chosen component incremented and the lower ones reset to
/// zero; pre-release and build metadata are kept.
pub open spec fn bumped(v: VersionView, kind: Bump) -> VersionView
    recommends
        bumpable(v, kind),
{
    match kind {
        Bump::Major => ((v.0 + 1) as u64, 0, 0, v.3, v.4),
        Bump::Minor => (v.0, (v.1 + 1) as u64, 0, v.3, v.4),
        Bump::Patch => (v.0, v.1, (v.2 + 1) as u64, v.3, v.4),
    }
}

/// The usual notation `major.minor.patch[-pre][+build]`.
pub open spec fn render(v: VersionView) -> Seq<char> {
    decimal(v.0 as nat) + seq!['.'] + decimal(v.1 as nat) + seq!['.'] + decimal(v.2 as nat) + (
    if v.3.len() > 0 {
        seq!['-'] + v.3
    } else {
        Seq::empty()
    }) + (if v.4.len() > 0 {
        seq!['+'] + v.4
    } else {
        Seq::empty()
    })
}

/// The version a project is taken to have before any release.
pub open spec fn initial_version() -> VersionView {
    (0, 1, 0, Seq::empty(), Seq::empty())
}

/// The version text of a tag reference: `refs/tags/` and then any leading
/// `v` are removed.
pub open spec fn tag_version_text(tag: Seq<char>) -> Seq<char> {
    strip_leading(strip_leading(tag, "refs/tags/"@), "v"@)
}

/// The newest version among the tags that parse, `None` when none does;
/// among equals the first one seen stays.
pub open spec fn newest_parsed(tags: Seq<Seq<char>>) -> Option<VersionView>
    decreases tags.len(),
{
    if tags.len() == 0 {
        None
    } else {
        let prev = newest_parsed(tags.drop_last());
        match parsed_semver(tag_version_text(tags.last())) {
            Some(v) => match prev {
                Some(p) => if newer(v, p) {
                    Some(v)
                } else {
                    Some(p)
                },
                None => Some(v),
            },
            None => prev,
        }
    }
}

/// The newest version among the tags that parse, or the initial version
/// when no tag parses.
pub open spec fn latest_of(tags: Seq<Seq<char>>) -> VersionView {
    match newest_parsed(tags) {
        Some(v) => v,
        None => initial_version(),
    }
}

/// The bump that a release keyword names, if it names one.
pub open spec fn keyword_bump(word: Seq<char>) -> Option<Bump> {
    if word == "major"@ {
        Some(Bump::Major)
    } else if word == "minor"@ {
        Some(Bump::Minor)
    } else if word == "patch"@ {
        Some(Bump::Patch)
    } else {
        None
    }
}

/// The version a release gets: a bump keyword bumps the last tag's version
/// (read from the trimmed `git describe` output without its leading `v`s),
/// or gives `0.1.0` when that does not parse; any other word is the version.
/// `None` where the bumped component is already at its largest value.
pub open spec fn release_version_of(word: Seq<char>, describe_output: Seq<char>) -> Option<
    Seq<char>,
> {
    match keyword_bump(word) {
        None => Some(word),
        Some(kind) => match parsed_semver(strip_leading(trim_of(describe_output), "v"@)) {
            None => Some(render(initial_version())),
            Some(v) => if bumpable(v, kind) {
                Some(render(bumped(v, kind)))
            } else {
                None
            },
        },
    }
}

impl Version {
    /// A release version without pre-release or build metadata.
    pub fn new(major: u64, minor: u64, patch: u64) -> (r: Version)
        ensures
            r@ == (major, minor, patch, Seq::<char>::empty(), Seq::<char>::empty()),
    {
        Version { major, minor, patch, pre: String::new(), build: String::new() }
    }

    /// Reads a version text such as `1.2.3` or `1.0.0-rc.1+build.5`.
    pub fn parse(text: &str) -> (r: Option<Version>)
        ensures
            match r {
                Some(v) => parsed_semver(text@) == Some(v@),
                None => parsed_semver(text@) is None,
            },
    {
        parse_semver(text)
    }

    /// Whether `self` takes precedence over `other`.
    pub fn is_newer_than(&self, other: &Version) -> (r: bool)
        ensures
            r == newer(self@, other@),
    {
        if self.major != other.major {
            self.major > other.major
        } else if self.minor != other.minor {
            self.minor > other.minor
        } else if self.patch != other.patch {
            self.patch > other.patch
        } else {
            match compare_prerelease(self.pre.as_str(), other.pre.as_str()) {
                Some(o) if o != 0 => o > 0,
                _ => match compare_build(self.build.as_str(), other.build.as_str()) {
                    Some(o) => o > 0,
                    None => false,
                },
            }
        }
    }

    /// Whether `bump` may be applied with `kind`.
    pub fn can_bump(&self, kind: Bump) -> (r: bool)
        ensures
            r == bumpable(self@, kind),
    {
        match kind {
            Bump::Major => self.major < u64::MAX,
            Bump::Minor => self.minor < u64::MAX,
            Bump::Patch => self.patch < u64::MAX,
        }
    }

    /// The next version: the chosen component plus one, lower ones zero.
    pub fn bump(&self, kind: Bump) -> (r: Version)
        requires
            bumpable(self@, kind),
        ensures
            r@ == bumped(self@, kind),
    {
        let pre = String::from_str(self.pre.as_str());
        let build = String::from_str(self.build.as_str());
        match kind {
            Bump::Major => Version { major: self.major + 1, minor: 0, patch: 0, pre, build },
            Bump::Minor => Version { major: self.major, minor: self.minor + 1, patch: 0, pre, build },
            Bump::Patch => Version {
                major: self.major,
                minor: self.minor,
                patch: self.patch + 1,
                pre,
                build,
            },
        }
    }

    /// The version in its usual notation.
    pub fn to_text(&self) -> (r: String)
        ensures
            r@ == render(self@),
    {
        let mut out = String::new();
        push_decimal(&mut out, self.major);
        proof { reveal_strlit("."); reveal_strlit("-"); reveal_strlit("+"); }
        out.append(".");
        push_decimal(&mut out, self.minor);
        out.append(".");
        push_decimal(&mut out, self.patch);
        if self.pre.unicode_len() > 0 {
            out.append("-");
            out.append(self.pre.as_str());
        }
        if self.build.unicode_len() > 0 {
            out.append("+");
            out.append(self.build.as_str());
        }
        assert(out@ =~= render(self@));
        out
    }
}

/// The newest version among the given tag references (`refs/tags/v1.2.0`
/// or `v1.2.0`), the first seen among equals, or `0.1.0` when none parses.
pub fn latest_version(tags: &Vec<String>) -> (r: Version)
    ensures
        r@ == latest_of(texts(tags@)),
{
    let mut latest: Option<Version> = None;
    let mut i: usize = 0;
    while i < tags.len()
        invariant
            i <= tags@.len(),
            match latest {
                Some(l) => newest_parsed(texts(tags@).take(i as int)) == Some(l@),
                None => newest_parsed(texts(tags@).take(i as int)) is None,
            },
        decreases tags@.len() - i,
    {
        let name = strip_leading_text(tags[i].as_str(), "refs/tags/");
        let text = strip_leading_text(name.as_str(), "v");
        let ghost seen = texts(tags@).take(i + 1);
        assert(seen.drop_last() =~= texts(tags@).take(i as int));
        assert(seen.last() == tags@[i as int]@);
        match Version::parse(text.as_str()) {
            Some(v) => {
                let replace = match &latest {
                    Some(l) => v.is_newer_than(l),
                    None => true,
                };
                if replace {
                    latest = Some(v);
                }
            },
            None => {},
        }
        i = i + 1;
    }
    assert(texts(tags@).take(i as int) =~= texts(tags@));
    match latest {
        Some(l) => l,
        None => Version::new(0, 1, 0),
    }
}

/// The bump that a release keyword (`major`, `minor`, `patch`) names.
pub fn keyword_bump_of(word: &str) -> (r: Option<Bump>)
    ensures
        r == keyword_bump(word@),
{
    if crate::text::same_text(word, "major") {
        Some(Bump::Major)
    } else if crate::text::same_text(word, "minor") {
        Some(Bump::Minor)
    } else if crate::text::same_text(word, "patch") {
        Some(Bump::Patch)
    } else {
        None
    }
}

/// The version text a release gets from its version word and, for a bump
/// keyword, the output of `git describe --tags --abbrev=0`.
pub fn release_version(word: &str, describe_output: &str) -> (r: Option<String>)
    ensures
        match r {
            Some(t) => release_version_of(word@, describe_output@) == Some(t@),
            None => release_version_of(word@, describe_output@) is None,
        },
{
    match keyword_bump_of(word) {
        None => Some(String::from_str(word)),
        Some(kind) => {
            let last_tag = trimmed(describe_output);
            let text = strip_leading_text(last_tag.as_str(), "v");
            match Version::parse(text.as_str()) {
                None => Some(Version::new(0, 1, 0).to_text()),
                Some(v) => if v.can_bump(kind) {
                    Some(v.bump(kind).to_text())
                } else {
                    None
                },
            }
        },
    }
}

/// Bumping is monotonic and resets what lies below: the bumped version is
/// newer, the components above the bumped one are kept, the bumped one grows
/// by one, and those below it are zero.
pub proof fn lemma_bump_newer_and_resets(v: VersionView, kind: Bump)
    requires
        bumpable(v, kind),
    ensures
        newer(bumped(v, kind), v),
        !newer(v, bumped(v, kind)),
        kind == Bump::Major ==> bumped(v, kind).0 == v.0 + 1 && bumped(v, kind).1 == 0
            && bumped(v, kind).2 == 0,
        kind == Bump::Minor ==> bumped(v, kind).0 == v.0 && bumped(v, kind).1 == v.1 + 1
            && bumped(v, kind).2 == 0,
        kind == Bump::Patch ==> bumped(v, kind).0 == v.0 && bumped(v, kind).1 == v.1
            && bumped(v, kind).2 == v.2 + 1,
{
}

/// A bump keyword on a last tag that parses and can be bumped yields the
/// notation of the bumped version, which is newer, keeps the components above
/// the bumped one and resets those below.
pub proof fn lemma_release_bumps_last_tag(word: Seq<char>, describe_output: Seq<char>, v: VersionView, kind: Bump)
    requires
        keyword_bump(word) == Some(kind),
        parsed_semver(strip_leading(trim_of(describe_output), "v"@)) == Some(v),
        bumpable(v, kind),
    ensures
        release_version_of(word, describe_output) == Some(render(bumped(v, kind))),
        newer(bumped(v, kind), v),
        kind == Bump::Major ==> bumped(v, kind).0 == v.0 + 1 && bumped(v, kind).1 == 0
            && bumped(v, kind).2 == 0,
        kind == Bump::Minor ==> bumped(v, kind).0 == v.0 && bumped(v, kind).1 == v.1 + 1
            && bumped(v, kind).2 == 0,
        kind == Bump::Patch ==> bumped(v, kind).0 == v.0 && bumped(v, kind).1 == v.1
            && bumped(v, kind).2 == v.2 + 1,
{
    lemma_bump_newer_and_resets(v, kind);
}

} // verus!
