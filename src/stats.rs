use vstd::prelude::*;
use crate::text::{same_text, texts};

verus! {

/// How many commits one author made.
#[derive(Debug, Clone)]
pub struct AuthorCount {
    pub name: String,
    pub commits: usize,
}

impl View for AuthorCount {
    type V = (Seq<char>, nat);

    open spec fn view(&self) -> (Seq<char>, nat) {
        (self.name@, self.commits as nat)
    }
}

/// A tally as plain values.
pub open spec fn counts(v: Seq<AuthorCount>) -> Seq<(Seq<char>, nat)> {
    v.map_values(|a: AuthorCount| a@)
}

/// The first position of `name` in a tally, or -1.
pub open spec fn find_name(t: Seq<(Seq<char>, nat)>, name: Seq<char>) -> int
    decreases t.len(),
{
    if t.len() == 0 {
        -1
    } else {
        let k = find_name(t.drop_last(), name);
        if k >= 0 {
            k
        } else if t.last().0 == name {
            t.len() - 1
        } else {
            -1
        }
    }
}

/// Commit counts per author name, in order of first appearance.
pub open spec fn tally_of(names: Seq<Seq<char>>) -> Seq<(Seq<char>, nat)>
    decreases names.len(),
{
    if names.len() == 0 {
        Seq::empty()
    } else {
        let t = tally_of(names.drop_last());
        let k = find_name(t, names.last());
        if k >= 0 {
            t.update(k, (names.last(), t[k].1 + 1))
        } else {
            t.push((names.last(), 1))
        }
    }
}

/// `x` placed after every entry that has at least as many commits.
pub open spec fn insert_by_count(sorted: Seq<(Seq<char>, nat)>, x: (Seq<char>, nat)) -> Seq<
    (Seq<char>, nat),
>
    decreases sorted.len(),
{
    if sorted.len() == 0 || sorted.last().1 >= x.1 {
        sorted.push(x)
    } else {
        insert_by_count(sorted.drop_last(), x).push(sorted.last())
    }
}

/// The tally ordered by commit count, most first; equal counts keep their order.
pub open spec fn by_count(t: Seq<(Seq<char>, nat)>) -> Seq<(Seq<char>, nat)>
    decreases t.len(),
{
    if t.len() == 0 {
        Seq::empty()
    } else {
        insert_by_count(by_count(t.drop_last()), t.last())
    }
}

proof fn lemma_find_name(t: Seq<(Seq<char>, nat)>, name: Seq<char>)
    ensures
        -1 <= find_name(t, name) < t.len(),
        find_name(t, name) >= 0 ==> t[find_name(t, name)].0 == name,
        forall|j: int| 0 <= j < t.len() && (find_name(t, name) < 0 || j < find_name(t, name)) ==> t[j].0 != name,
    decreases t.len(),
{
    if t.len() > 0 {
        let u = t.drop_last();
        lemma_find_name(u, name);
        assert forall|j: int|
            0 <= j < t.len() && (find_name(t, name) < 0 || j < find_name(t, name)) implies t[j].0
            != name by {
            if j < u.len() {
                assert(u[j] == t[j]);
            }
        }
    }
}

proof fn lemma_insert_at(sorted: Seq<(Seq<char>, nat)>, x: (Seq<char>, nat), j: int)
    requires
        0 <= j <= sorted.len(),
        forall|k: int| j <= k < sorted.len() ==> sorted[k].1 < x.1,
        j > 0 ==> sorted[j - 1].1 >= x.1,
    ensures
        insert_by_count(sorted, x) == sorted.insert(j, x),
    decreases sorted.len(),
{
    if sorted.len() == 0 {
        assert(sorted.insert(j, x) =~= seq![x]);
    } else if j == sorted.len() {
        assert(sorted.insert(j, x) =~= sorted.push(x));
    } else {
        lemma_insert_at(sorted.drop_last(), x, j);
        assert(sorted.insert(j, x) =~= sorted.drop_last().insert(j, x).push(sorted.last()));
    }
}

/// Commit counts per author, in order of first appearance.
pub fn tally(names: &Vec<String>) -> (r: Vec<AuthorCount>)
    ensures
        counts(r@) == tally_of(texts(names@)),
{
    let mut out: Vec<AuthorCount> = Vec::new();
    let mut i: usize = 0;
    while i < names.len()
        invariant
            i <= names@.len(),
            counts(out@) == tally_of(texts(names@).take(i as int)),
            forall|k: int| 0 <= k < out@.len() ==> out@[k].commits <= i,
        decreases names@.len() - i,
    {
        let ghost seen = texts(names@).take(i + 1);
        assert(seen.drop_last() =~= texts(names@).take(i as int));
        assert(seen.last() == names@[i as int]@);
        let ghost t = counts(out@);
        proof { lemma_find_name(t, names@[i as int]@); }
        let mut k: usize = 0;
        while k < out.len()
            invariant
                i < names@.len(),
                k <= out@.len(),
                t == counts(out@),
                forall|j: int| 0 <= j < k ==> t[j].0 != names@[i as int]@,
            ensures
                k <= out@.len(),
                forall|j: int| 0 <= j < k ==> t[j].0 != names@[i as int]@,
                k < out@.len() ==> t[k as int].0 == names@[i as int]@,
            decreases out@.len() - k,
        {
            if same_text(out[k].name.as_str(), names[i].as_str()) {
                break;
            }
            k = k + 1;
        }
        if k < out.len() {
            assert(t[k as int].0 == names@[i as int]@);
            assert(find_name(t, names@[i as int]@) == k);
            let c = out[k].commits;
            let name = String::from_str(names[i].as_str());
            out.set(k, AuthorCount { name, commits: c + 1 });
            assert(counts(out@) =~= t.update(k as int, (names@[i as int]@, t[k as int].1 + 1)));
        } else {
            assert(find_name(t, names@[i as int]@) < 0);
            let name = String::from_str(names[i].as_str());
            out.push(AuthorCount { name, commits: 1 });
            assert(counts(out@) =~= t.push((names@[i as int]@, 1)));
        }
        i = i + 1;
    }
    assert(texts(names@).take(i as int) =~= texts(names@));
    out
}

/// The tally ordered by commit count, most first; equal counts keep their order.
pub fn order_by_count(t: &Vec<AuthorCount>) -> (r: Vec<AuthorCount>)
    ensures
        counts(r@) == by_count(counts(t@)),
{
    let mut out: Vec<AuthorCount> = Vec::new();
    let mut i: usize = 0;
    while i < t.len()
        invariant
            i <= t@.len(),
            counts(out@) == by_count(counts(t@).take(i as int)),
        decreases t@.len() - i,
    {
        let ghost seen = counts(t@).take(i + 1);
        assert(seen.drop_last() =~= counts(t@).take(i as int));
        assert(seen.last() == t@[i as int]@);
        let x = AuthorCount { name: String::from_str(t[i].name.as_str()), commits: t[i].commits };
        let mut j: usize = out.len();
        while j > 0 && out[j - 1].commits < x.commits
            invariant
                j <= out@.len(),
                forall|k: int| j <= k < out@.len() ==> out@[k].commits < x.commits,
            decreases j,
        {
            j = j - 1;
        }
        let ghost before = counts(out@);
        proof { lemma_insert_at(before, x@, j as int); }
        out.insert(j, x);
        assert(counts(out@) =~= before.insert(j as int, x@));
        i = i + 1;
    }
    assert(counts(t@).take(i as int) =~= counts(t@));
    out
}

/// The number of contributors listed.
pub const TOP_CONTRIBUTORS: usize = 5;

/// The authors with most commits, at most five, most first.
pub fn top_contributors(names: &Vec<String>) -> (r: Vec<AuthorCount>)
    ensures
        counts(r@) == by_count(tally_of(texts(names@))).take(
            if by_count(tally_of(texts(names@))).len() < TOP_CONTRIBUTORS {
                by_count(tally_of(texts(names@))).len() as int
            } else {
                TOP_CONTRIBUTORS as int
            },
        ),
{
    let t = tally(names);
    let mut sorted = order_by_count(&t);
    if sorted.len() > TOP_CONTRIBUTORS {
        sorted.truncate(TOP_CONTRIBUTORS);
    }
    assert(counts(sorted@) =~= by_count(tally_of(texts(names@))).take(counts(sorted@).len() as int));
    sorted
}

/// The width of an author's bar: the share of all commits scaled to 20,
/// rounded down, at least 1.
pub open spec fn bar_of(count: nat, total: nat) -> nat
    recommends
        total > 0,
{
    if count * 20 / total >= 1 {
        count * 20 / total
    } else {
        1
    }
}

/// The width of an author's bar for `count` commits out of `total`.
pub fn bar_length(count: usize, total: usize) -> (r: usize)
    requires
        0 < total,
        count <= total,
    ensures
        r as nat == bar_of(count as nat, total as nat),
        1 <= r <= 20,
{
    let q: u128 = (count as u128) * 20 / (total as u128);
    assert(q <= 20) by (nonlinear_arith)
        requires
            q == (count as int) * 20 / (total as int),
            count <= total,
            0 < total,
    {
        assert((count as int) * 20 <= (total as int) * 20);
    }
    if q >= 1 {
        q as usize
    } else {
        1
    }
}

/// The state of one path, as Git's status flags for the index and the
/// working tree.
#[derive(Debug, Clone, Copy)]
pub struct FileStatus {
    pub index_new: bool,
    pub index_modified: bool,
    pub index_deleted: bool,
    pub wt_new: bool,
    pub wt_modified: bool,
    pub wt_deleted: bool,
}

/// How many paths are modified, added and deleted (in the index or the
/// working tree); a path may count in several.
#[derive(Debug, Clone, Copy, PartialEq, Eq, Structural)]
pub struct ChangeCounts {
    pub modified: usize,
    pub added: usize,
    pub deleted: usize,
}

pub open spec fn is_modified(f: FileStatus) -> bool {
    f.wt_modified || f.index_modified
}

pub open spec fn is_added(f: FileStatus) -> bool {
    f.wt_new || f.index_new
}

pub open spec fn is_deleted(f: FileStatus) -> bool {
    f.wt_deleted || f.index_deleted
}

/// The number of entries of `s` for which `p` holds.
pub open spec fn count_where(s: Seq<FileStatus>, p: spec_fn(FileStatus) -> bool) -> nat
    decreases s.len(),
{
    if s.len() == 0 {
        0
    } else {
        count_where(s.drop_last(), p) + if p(s.last()) {
            1nat
        } else {
            0nat
        }
    }
}

/// Counts modified, added and deleted paths.
pub fn count_changes(entries: &Vec<FileStatus>) -> (r: ChangeCounts)
    ensures
        r.modified == count_where(entries@, |f: FileStatus| is_modified(f)),
        r.added == count_where(entries@, |f: FileStatus| is_added(f)),
        r.deleted == count_where(entries@, |f: FileStatus| is_deleted(f)),
{
    let mut c = ChangeCounts { modified: 0, added: 0, deleted: 0 };
    let mut i: usize = 0;
    while i < entries.len()
        invariant
            i <= entries@.len(),
            c.modified == count_where(entries@.take(i as int), |f: FileStatus| is_modified(f)),
            c.added == count_where(entries@.take(i as int), |f: FileStatus| is_added(f)),
            c.deleted == count_where(entries@.take(i as int), |f: FileStatus| is_deleted(f)),
            c.modified <= i && c.added <= i && c.deleted <= i,
        decreases entries@.len() - i,
    {
        let ghost seen = entries@.take(i + 1);
        assert(seen.drop_last() =~= entries@.take(i as int));
        let f = entries[i];
        if f.wt_modified || f.index_modified {
            c.modified = c.modified + 1;
        }
        if f.wt_new || f.index_new {
            c.added = c.added + 1;
        }
        if f.wt_deleted || f.index_deleted {
            c.deleted = c.deleted + 1;
        }
        i = i + 1;
    }
    assert(entries@.take(i as int) =~= entries@);
    c
}

/// The total number of commits in a tally.
pub open spec fn total(t: Seq<(Seq<char>, nat)>) -> nat
    decreases t.len(),
{
    if t.len() == 0 {
        0
    } else {
        total(t.drop_last()) + t.last().1
    }
}

/// Whether instant `a` (seconds since the Unix epoch, nanoseconds) is later than `b`.
pub open spec fn later(a: (i64, u32), b: (i64, u32)) -> bool {
    a.0 > b.0 || (a.0 == b.0 && a.1 > b.1)
}

/// What chrono's `DateTime::<Utc>::from_timestamp(secs, 0)` formatted as
/// `%Y-%m-%d` yields: the UTC day of a Unix time, `None` out of range.
pub uninterp spec fn utc_day_of(secs: i64) -> Option<Seq<char>>;

/// What parsing a text as chrono's `DateTime<Utc>` yields, as seconds since
/// the Unix epoch and nanoseconds.
pub uninterp spec fn utc_instant_of(text: Seq<char>) -> Option<(i64, u32)>;

/// Relies on chrono's `DateTime::<Utc>::from_timestamp` and `format`: the
/// UTC calendar day of a Unix time; the result depends on the time alone.
#[verifier::external_body]
fn utc_day(secs: i64) -> (r: Option<String>)
    ensures
        match r {
            Some(d) => utc_day_of(secs) == Some(d@),
            None => utc_day_of(secs) is None,
        },
{
    chrono::DateTime::<chrono::Utc>::from_timestamp(secs, 0).map(
        |d| d.format("%Y-%m-%d").to_string(),
    )
}

/// Relies on chrono's `FromStr` for `DateTime<Utc>`: the instant a text
/// names; the result depends on the text alone.
#[verifier::external_body]
fn utc_instant(text: &str) -> (r: Option<(i64, u32)>)
    ensures
        r == utc_instant_of(text@),
{
    text.parse::<chrono::DateTime<chrono::Utc>>().ok().map(
        |d| (d.timestamp(), d.timestamp_subsec_nanos()),
    )
}

/// The day a commit is counted under: the UTC day of its time, or `today`
/// where the time is out of range.
pub fn commit_day(secs: i64, today: &str) -> (r: String)
    ensures
        r@ == match utc_day_of(secs) {
            Some(d) => d,
            None => today@,
        },
{
    match utc_day(secs) {
        Some(d) => d,
        None => String::from_str(today),
    }
}

/// The commits of the tally entries whose text names an instant later than
/// `since`.
pub open spec fn recent_of(t: Seq<(Seq<char>, nat)>, since: (i64, u32)) -> nat
    decreases t.len(),
{
    if t.len() == 0 {
        0
    } else {
        recent_of(t.drop_last(), since) + match utc_instant_of(t.last().0) {
            Some(x) => if later(x, since) {
                t.last().1
            } else {
                0
            },
            None => 0,
        }
    }
}

proof fn lemma_total_update(t: Seq<(Seq<char>, nat)>, k: int, v: (Seq<char>, nat))
    requires
        0 <= k < t.len(),
    ensures
        total(t.update(k, v)) + t[k].1 == total(t) + v.1,
    decreases t.len(),
{
    let u = t.update(k, v);
    if k == t.len() - 1 {
        assert(u.drop_last() =~= t.drop_last());
    } else {
        lemma_total_update(t.drop_last(), k, v);
        assert(u.drop_last() =~= t.drop_last().update(k, v));
    }
}

proof fn lemma_tally_total(names: Seq<Seq<char>>)
    ensures
        total(tally_of(names)) == names.len(),
    decreases names.len(),
{
    if names.len() > 0 {
        let t = tally_of(names.drop_last());
        lemma_tally_total(names.drop_last());
        lemma_find_name(t, names.last());
        let k = find_name(t, names.last());
        if k >= 0 {
            lemma_total_update(t, k, (names.last(), t[k].1 + 1));
        } else {
            assert(t.push((names.last(), 1)).drop_last() =~= t);
        }
    }
}

proof fn lemma_recent_bounded(t: Seq<(Seq<char>, nat)>, since: (i64, u32))
    ensures
        recent_of(t, since) <= total(t),
    decreases t.len(),
{
    if t.len() > 0 {
        lemma_recent_bounded(t.drop_last(), since);
    }
}

proof fn lemma_total_prefix(t: Seq<(Seq<char>, nat)>, i: int)
    requires
        0 <= i <= t.len(),
    ensures
        total(t.take(i)) <= total(t),
    decreases t.len() - i,
{
    if i < t.len() {
        lemma_total_prefix(t, i + 1);
        assert(t.take(i + 1).drop_last() =~= t.take(i));
    } else {
        assert(t.take(i) =~= t);
    }
}

/// How many of the commits, counted per day text, fall on a day that names
/// an instant later than `since` (seconds since the Unix epoch, nanoseconds).
pub fn recent_commits(days: &Vec<String>, since_secs: i64, since_nanos: u32) -> (r: usize)
    ensures
        r == recent_of(tally_of(texts(days@)), (since_secs, since_nanos)),
{
    let n = days.len();
    let t = tally(days);
    let ghost full = counts(t@);
    proof { lemma_tally_total(texts(days@)); }
    let mut sum: usize = 0;
    let mut i: usize = 0;
    while i < t.len()
        invariant
            i <= t@.len(),
            full == counts(t@),
            total(full) == n,
            sum == recent_of(full.take(i as int), (since_secs, since_nanos)),
        decreases t@.len() - i,
    {
        let ghost pre = full.take(i as int);
        let ghost next = full.take(i + 1);
        assert(next.drop_last() =~= pre);
        assert(next.last() == t@[i as int]@);
        proof {
            lemma_recent_bounded(next, (since_secs, since_nanos));
            lemma_total_prefix(full, i + 1);
        }
        match utc_instant(t[i].name.as_str()) {
            Some(x) => {
                if x.0 > since_secs || (x.0 == since_secs && x.1 > since_nanos) {
                    assert(recent_of(next, (since_secs, since_nanos)) == sum + t@[i as int].commits);
                    sum = sum + t[i].commits;
                }
            },
            None => {},
        }
        i = i + 1;
    }
    assert(full.take(i as int) =~= full);
    sum
}

} // verus!
