use vstd::prelude::*;
use crate::text::{
    text_contains, contains_text, first_word, first_word_of, lines_of, same_text, split_lines,
    split_on, split_text, texts, trim_of, trimmed,
};

verus! {

/// One commit of a `git log --pretty=format:%h|%s|%cr|%b` listing.
#[derive(Debug, Clone)]
pub struct LogEntry {
    pub hash: String,
    pub subject: String,
    pub when: String,
}

impl View for LogEntry {
    type V = (Seq<char>, Seq<char>, Seq<char>);

    open spec fn view(&self) -> (Seq<char>, Seq<char>, Seq<char>) {
        (self.hash@, self.subject@, self.when@)
    }
}

/// A line of the log listing read as a commit: its first three
/// `|`-separated fields, when it has at least three.
pub open spec fn log_entry_of(line: Seq<char>) -> Option<(Seq<char>, Seq<char>, Seq<char>)> {
    let f = split_on(line, '|');
    if f.len() >= 3 {
        Some((f[0], f[1], f[2]))
    } else {
        None
    }
}

/// The commits read from the lines, skipping lines that are not one.
pub open spec fn log_entries(lines: Seq<Seq<char>>) -> Seq<(Seq<char>, Seq<char>, Seq<char>)>
    decreases lines.len(),
{
    if lines.len() == 0 {
        Seq::empty()
    } else {
        let prev = log_entries(lines.drop_last());
        match log_entry_of(lines.last()) {
            Some(e) => prev.push(e),
            None => prev,
        }
    }
}

/// A branch of a `git for-each-ref --format=%(refname:short)|%(committerdate:relative)`
/// listing.
#[derive(Debug, Clone)]
pub struct RecentBranch {
    pub name: String,
    pub when: String,
    pub is_current: bool,
}

impl View for RecentBranch {
    type V = (Seq<char>, Seq<char>, bool);

    open spec fn view(&self) -> (Seq<char>, Seq<char>, bool) {
        (self.name@, self.when@, self.is_current)
    }
}

/// A line of the branch listing: its first two `|`-separated fields, when it
/// has at least two, and whether the branch is the current one.
pub open spec fn branch_entry_of(line: Seq<char>, current: Seq<char>) -> Option<
    (Seq<char>, Seq<char>, bool),
> {
    let f = split_on(line, '|');
    if f.len() >= 2 {
        Some((f[0], f[1], f[0] == current))
    } else {
        None
    }
}

/// The branches read from the lines, skipping lines that are not one.
pub open spec fn branch_entries(lines: Seq<Seq<char>>, current: Seq<char>) -> Seq<
    (Seq<char>, Seq<char>, bool),
>
    decreases lines.len(),
{
    if lines.len() == 0 {
        Seq::empty()
    } else {
        let prev = branch_entries(lines.drop_last(), current);
        match branch_entry_of(lines.last(), current) {
            Some(e) => prev.push(e),
            None => prev,
        }
    }
}

/// The commits of a log listing, in order.
pub fn parse_log(output: &str) -> (r: Vec<LogEntry>)
    ensures
        r@.map_values(|e: LogEntry| e@) == log_entries(lines_of(output@)),
{
    let lines = split_lines(output);
    let mut out: Vec<LogEntry> = Vec::new();
    let mut i: usize = 0;
    while i < lines.len()
        invariant
            i <= lines@.len(),
            texts(lines@) == lines_of(output@),
            out@.map_values(|e: LogEntry| e@) == log_entries(texts(lines@).take(i as int)),
        decreases lines@.len() - i,
    {
        let ghost seen = texts(lines@).take(i + 1);
        assert(seen.drop_last() =~= texts(lines@).take(i as int));
        assert(seen.last() == lines@[i as int]@);
        let fields = split_text(lines[i].as_str(), '|');
        let ghost before = out@;
        if fields.len() >= 3 {
            assert(fields@[0]@ == texts(fields@)[0]);
            assert(fields@[1]@ == texts(fields@)[1]);
            assert(fields@[2]@ == texts(fields@)[2]);
            let e = LogEntry {
                hash: String::from_str(fields[0].as_str()),
                subject: String::from_str(fields[1].as_str()),
                when: String::from_str(fields[2].as_str()),
            };
            out.push(e);
            assert(out@.map_values(|e: LogEntry| e@) =~= before.map_values(|e: LogEntry| e@).push(
                e@,
            ));
        }
        i = i + 1;
    }
    assert(texts(lines@).take(i as int) =~= texts(lines@));
    out
}

/// The branches of a branch listing, in order, with the current one marked.
pub fn parse_recent_branches(output: &str, current: &str) -> (r: Vec<RecentBranch>)
    ensures
        r@.map_values(|b: RecentBranch| b@) == branch_entries(lines_of(output@), current@),
{
    let lines = split_lines(output);
    let mut out: Vec<RecentBranch> = Vec::new();
    let mut i: usize = 0;
    while i < lines.len()
        invariant
            i <= lines@.len(),
            texts(lines@) == lines_of(output@),
            out@.map_values(|b: RecentBranch| b@) == branch_entries(
                texts(lines@).take(i as int),
                current@,
            ),
        decreases lines@.len() - i,
    {
        let ghost seen = texts(lines@).take(i + 1);
        assert(seen.drop_last() =~= texts(lines@).take(i as int));
        assert(seen.last() == lines@[i as int]@);
        let fields = split_text(lines[i].as_str(), '|');
        let ghost before = out@;
        if fields.len() >= 2 {
            assert(fields@[0]@ == texts(fields@)[0]);
            assert(fields@[1]@ == texts(fields@)[1]);
            let b = RecentBranch {
                name: String::from_str(fields[0].as_str()),
                when: String::from_str(fields[1].as_str()),
                is_current: same_text(fields[0].as_str(), current),
            };
            out.push(b);
            assert(out@.map_values(|b: RecentBranch| b@) =~= before.map_values(
                |b: RecentBranch| b@,
            ).push(b@));
        }
        i = i + 1;
    }
    assert(texts(lines@).take(i as int) =~= texts(lines@));
    out
}

/// Whether a `git bisect log` shows a session under way: its last line
/// mentions `bisecting`.
pub open spec fn bisecting_of(log: Seq<char>) -> bool {
    lines_of(log).len() > 0 && contains_text(lines_of(log).last(), "bisecting"@)
}

/// Whether a bisect session is under way, from the text of `git bisect log`.
pub fn bisect_in_progress(log: &str) -> (r: bool)
    ensures
        r == bisecting_of(log@),
{
    let lines = split_lines(log);
    let n = lines.len();
    if n == 0 {
        return false;
    }
    assert(lines@[n - 1]@ == texts(lines@).last());
    text_contains(lines[n - 1].as_str(), "bisecting")
}

/// The step count shown for a bisect session: the first word of the trimmed
/// output of `git rev-list --count --bisect-all`.
pub fn steps_remaining(count_output: &str) -> (r: Option<String>)
    ensures
        match r {
            Some(w) => first_word_of(trim_of(count_output@)) == Some(w@),
            None => first_word_of(trim_of(count_output@)) is None,
        },
{
    let t = trimmed(count_output);
    first_word(t.as_str())
}

} // verus!
