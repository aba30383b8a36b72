use vstd::prelude::*;
use crate::config::{CommitConfig, WorkflowConfig};
use crate::error::GwfError;
use crate::text::{contains_text, copy_text, same_text, text_contains, texts};
use crate::version::{render, Version};

verus! {

/// A workflow branch name: the configured prefix, then the given name.
pub fn branch_name(prefix: &str, name: &str) -> (r: String)
    ensures
        r@ == prefix@ + name@,
{
    String::from_str(prefix).concat(name)
}

/// The branch a feature starts from: the one asked for, else the develop
/// branch, else the main branch.
pub fn feature_base(from: Option<String>, workflows: &WorkflowConfig) -> (r: String)
    ensures
        r@ == match from {
            Some(f) => f@,
            None => match workflows.develop_branch {
                Some(d) => d@,
                None => workflows.main_branch@,
            },
        },
{
    match from {
        Some(f) => f,
        None => match &workflows.develop_branch {
            Some(d) => copy_text(d),
            None => copy_text(&workflows.main_branch),
        },
    }
}

/// The branch a hotfix starts from, or a pull request targets: the one asked
/// for, else the main branch.
pub fn target_or_main(target: Option<String>, workflows: &WorkflowConfig) -> (r: String)
    ensures
        r@ == match target {
            Some(t) => t@,
            None => workflows.main_branch@,
        },
{
    match target {
        Some(t) => t,
        None => copy_text(&workflows.main_branch),
    }
}

/// A pull request cannot be opened from the main branch itself.
pub fn check_pr_source(current: &str, workflows: &WorkflowConfig) -> (r: Result<(), GwfError>)
    ensures
        r is Err <==> current@ == workflows.main_branch@,
        r matches Err(e) ==> e == GwfError::PullRequestFromMainBranch,
{
    if same_text(current, workflows.main_branch.as_str()) {
        Err(GwfError::PullRequestFromMainBranch)
    } else {
        Ok(())
    }
}

/// Where a pull request's title comes from.
#[derive(Debug, Clone, PartialEq, Eq)]
pub enum TitleSource {
    /// The title given on the command line.
    Given(String),
    /// Ask on the terminal, offering the branch name.
    Ask,
    /// The branch name, as no terminal is attached.
    BranchName,
}

/// The title given, else a prompt on a terminal, else the branch name.
pub fn pr_title_source(title: Option<String>, interactive: bool) -> (r: TitleSource)
    ensures
        match title {
            Some(t) => r matches TitleSource::Given(g) && g@ == t@,
            None => r == (if interactive {
                TitleSource::Ask
            } else {
                TitleSource::BranchName
            }),
        },
{
    match title {
        Some(t) => TitleSource::Given(t),
        None => if interactive {
            TitleSource::Ask
        } else {
            TitleSource::BranchName
        },
    }
}

/// What `urlencoding::encode` yields for a text.
pub uninterp spec fn url_encoded(s: Seq<char>) -> Seq<char>;

/// Relies on `urlencoding::encode`: every byte but ASCII letters, digits and
/// `-`, `_`, `.`, `~` percent-encoded; the result depends on the text alone.
#[verifier::external_body]
fn encode_component(s: &str) -> (r: String)
    ensures
        r@ == url_encoded(s@),
{
    urlencoding::encode(s).into_owned()
}

/// The web page that opens a pull request from `current` into `target`.
pub open spec fn compare_url_of(target: Seq<char>, current: Seq<char>, title: Seq<char>) -> Seq<char> {
    "https://github.com/user/repo/compare/"@ + target + "..."@ + current + "?title="@
        + url_encoded(title)
}

/// The web page that opens a pull request, for when no command-line client
/// is installed.
pub fn compare_url(target: &str, current: &str, title: &str) -> (r: String)
    ensures
        r@ == compare_url_of(target@, current@, title@),
{
    let mut url = String::from_str("https://github.com/user/repo/compare/");
    url.append(target);
    url.append("...");
    url.append(current);
    url.append("?title=");
    let enc = encode_component(title);
    url.append(enc.as_str());
    url
}

/// The arguments of the GitHub command-line client that open a pull request.
pub open spec fn gh_pr_args_of(title: Seq<char>, target: Seq<char>, draft: bool) -> Seq<Seq<char>> {
    seq!["pr"@, "create"@, "--title"@, title, "--base"@, target] + (if draft {
        seq!["--draft"@]
    } else {
        Seq::empty()
    })
}

/// The arguments of `gh` that open a pull request into `target`.
pub fn gh_pr_args(title: &str, target: &str, draft: bool) -> (r: Vec<String>)
    ensures
        texts(r@) == gh_pr_args_of(title@, target@, draft),
{
    let mut args: Vec<String> = Vec::new();
    args.push(String::from_str("pr"));
    args.push(String::from_str("create"));
    args.push(String::from_str("--title"));
    args.push(String::from_str(title));
    args.push(String::from_str("--base"));
    args.push(String::from_str(target));
    if draft {
        args.push(String::from_str("--draft"));
    }
    assert(texts(args@) =~= gh_pr_args_of(title@, target@, draft));
    args
}

/// A conventional commit message: `type(scope): description` (the scope and
/// its parentheses only when given), then the body and a `BREAKING CHANGE:`
/// footer, each after a blank line and only when not empty.
pub open spec fn conventional_of(
    kind: Seq<char>,
    scope: Seq<char>,
    description: Seq<char>,
    body: Seq<char>,
    breaking: Seq<char>,
) -> Seq<char> {
    (if scope.len() == 0 {
        kind + ": "@ + description
    } else {
        kind + "("@ + scope + "): "@ + description
    }) + (if body.len() == 0 {
        Seq::empty()
    } else {
        "\n\n"@ + body
    }) + (if breaking.len() == 0 {
        Seq::empty()
    } else {
        "\n\nBREAKING CHANGE: "@ + breaking
    })
}

/// Builds a conventional commit message.
pub fn conventional_message(
    kind: &str,
    scope: &str,
    description: &str,
    body: &str,
    breaking: &str,
) -> (r: String)
    ensures
        r@ == conventional_of(kind@, scope@, description@, body@, breaking@),
{
    let mut msg = String::from_str(kind);
    if scope.unicode_len() == 0 {
        msg.append(": ");
        msg.append(description);
    } else {
        msg.append("(");
        msg.append(scope);
        msg.append("): ");
        msg.append(description);
    }
    if body.unicode_len() > 0 {
        msg.append("\n\n");
        msg.append(body);
    }
    if breaking.unicode_len() > 0 {
        msg.append("\n\nBREAKING CHANGE: ");
        msg.append(breaking);
    }
    assert(msg@ =~= conventional_of(kind@, scope@, description@, body@, breaking@));
    msg
}

/// The number of conventional commit types offered.
pub const COMMIT_TYPE_COUNT: usize = 8;

/// The conventional commit types offered, in menu order.
pub open spec fn commit_type_of(i: int) -> Seq<char> {
    if i == 0 { "feat"@ }
    else if i == 1 { "fix"@ }
    else if i == 2 { "docs"@ }
    else if i == 3 { "style"@ }
    else if i == 4 { "refactor"@ }
    else if i == 5 { "perf"@ }
    else if i == 6 { "test"@ }
    else { "chore"@ }
}

/// The conventional commit type at menu position `i`.
pub fn commit_type(i: usize) -> (r: &'static str)
    requires
        i < COMMIT_TYPE_COUNT,
    ensures
        r@ == commit_type_of(i as int),
{
    if i == 0 { "feat" }
    else if i == 1 { "fix" }
    else if i == 2 { "docs" }
    else if i == 3 { "style" }
    else if i == 4 { "refactor" }
    else if i == 5 { "perf" }
    else if i == 6 { "test" }
    else { "chore" }
}

/// What each conventional commit type is for, in menu order.
pub open spec fn commit_type_description_of(i: int) -> Seq<char> {
    if i == 0 { "A new feature"@ }
    else if i == 1 { "A bug fix"@ }
    else if i == 2 { "Documentation only changes"@ }
    else if i == 3 { "Changes that do not affect the meaning of the code"@ }
    else if i == 4 { "A code change that neither fixes a bug nor adds a feature"@ }
    else if i == 5 { "A code change that improves performance"@ }
    else if i == 6 { "Adding missing tests or correcting existing tests"@ }
    else { "Changes to the build process or auxiliary tools"@ }
}

/// What the commit type at menu position `i` is for.
pub fn commit_type_description(i: usize) -> (r: &'static str)
    requires
        i < COMMIT_TYPE_COUNT,
    ensures
        r@ == commit_type_description_of(i as int),
{
    if i == 0 { "A new feature" }
    else if i == 1 { "A bug fix" }
    else if i == 2 { "Documentation only changes" }
    else if i == 3 { "Changes that do not affect the meaning of the code" }
    else if i == 4 { "A code change that neither fixes a bug nor adds a feature" }
    else if i == 5 { "A code change that improves performance" }
    else if i == 6 { "Adding missing tests or correcting existing tests" }
    else { "Changes to the build process or auxiliary tools" }
}

/// Where a commit message comes from.
#[derive(Debug, Clone, PartialEq, Eq)]
pub enum MessageSource {
    /// The message given on the command line.
    Given(String),
    /// Ask for type, scope, description, body and breaking change.
    Conventional,
    /// Ask for a free-form message.
    Plain,
}

/// The message given, else a prompt of the configured kind; a prompt needs
/// a terminal.
pub fn message_source(message: Option<String>, commits: &CommitConfig, interactive: bool) -> (r: Result<MessageSource, GwfError>)
    ensures
        match message {
            Some(m) => r matches Ok(MessageSource::Given(g)) && g@ == m@,
            None => if !interactive {
                r == Err::<MessageSource, GwfError>(GwfError::NonInteractiveInputRequired)
            } else if commits.conventional {
                r == Ok::<MessageSource, GwfError>(MessageSource::Conventional)
            } else {
                r == Ok::<MessageSource, GwfError>(MessageSource::Plain)
            },
        },
{
    match message {
        Some(m) => Ok(MessageSource::Given(m)),
        None => if !interactive {
            Err(GwfError::NonInteractiveInputRequired)
        } else if commits.conventional {
            Ok(MessageSource::Conventional)
        } else {
            Ok(MessageSource::Plain)
        },
    }
}

/// The arguments of `git` that create the commit.
pub open spec fn commit_args_of(amend: bool, commits: CommitConfig, message: Seq<char>) -> Seq<Seq<char>> {
    seq!["commit"@] + (if amend {
        seq!["--amend"@]
    } else {
        Seq::empty()
    }) + (if commits.sign_commits {
        seq!["-S"@] + match commits.gpg_key {
            Some(k) => seq!["--gpg-sign"@, k@],
            None => Seq::empty(),
        }
    } else {
        Seq::empty()
    }) + seq!["-m"@, message]
}

/// The arguments of `git` that create (or amend) the commit.
pub fn commit_args(amend: bool, commits: &CommitConfig, message: &str) -> (r: Vec<String>)
    ensures
        texts(r@) == commit_args_of(amend, *commits, message@),
{
    let mut args: Vec<String> = Vec::new();
    args.push(String::from_str("commit"));
    if amend {
        args.push(String::from_str("--amend"));
    }
    if commits.sign_commits {
        args.push(String::from_str("-S"));
        match &commits.gpg_key {
            Some(k) => {
                args.push(String::from_str("--gpg-sign"));
                args.push(copy_text(k));
            },
            None => {},
        }
    }
    args.push(String::from_str("-m"));
    args.push(String::from_str(message));
    assert(texts(args@) =~= commit_args_of(amend, *commits, message@));
    args
}

/// The tag of a version: `v` then its notation.
pub fn tag_name(v: &Version) -> (r: String)
    ensures
        r@ == "v"@ + render(v@),
{
    String::from_str("v").concat(v.to_text().as_str())
}

/// The branch name that HEAD gives: an error when HEAD is detached or the
/// name is not readable.
pub fn branch_of_head(is_branch: bool, shorthand: Option<String>) -> (r: Result<String, GwfError>)
    ensures
        !is_branch ==> r == Err::<String, GwfError>(GwfError::DetachedHead),
        is_branch && shorthand is None ==> r == Err::<String, GwfError>(
            GwfError::UnreadableBranchName,
        ),
        is_branch && shorthand is Some ==> (r matches Ok(b) && b@ == shorthand.unwrap()@),
{
    if !is_branch {
        return Err(GwfError::DetachedHead);
    }
    match shorthand {
        Some(b) => Ok(b),
        None => Err(GwfError::UnreadableBranchName),
    }
}

/// How fetched commits are brought into a branch.
#[derive(Debug, Clone, Copy, PartialEq, Eq, Structural)]
pub enum PullAction {
    /// Nothing to do.
    AlreadyUpToDate,
    /// Move the branch to the fetched commit and check it out.
    FastForward,
}

/// The pull decision from Git's merge analysis.
pub fn pull_action(up_to_date: bool, fast_forward: bool) -> (r: Result<PullAction, GwfError>)
    ensures
        up_to_date ==> r == Ok::<PullAction, GwfError>(PullAction::AlreadyUpToDate),
        !up_to_date && fast_forward ==> r == Ok::<PullAction, GwfError>(PullAction::FastForward),
        !up_to_date && !fast_forward ==> r == Err::<PullAction, GwfError>(GwfError::MergeRequired),
{
    if up_to_date {
        Ok(PullAction::AlreadyUpToDate)
    } else if fast_forward {
        Ok(PullAction::FastForward)
    } else {
        Err(GwfError::MergeRequired)
    }
}

/// The tag a release creates: `v` then the release's version text.
pub fn release_tag(version: &str) -> (r: String)
    ensures
        r@ == "v"@ + version@,
{
    String::from_str("v").concat(version)
}

/// The message of a release's tag: `Release v` then the version text.
pub fn release_tag_message(version: &str) -> (r: String)
    ensures
        r@ == "Release v"@ + version@,
{
    String::from_str("Release v").concat(version)
}

/// What to do about uncommitted changes before starting a feature branch.
#[derive(Debug, Clone, Copy, PartialEq, Eq, Structural)]
pub enum ChangesAction {
    /// Nothing uncommitted: go on.
    Clean,
    /// Ask whether to stash the changes and go on.
    Ask,
    /// No terminal to ask on: go on with the changes in place.
    ProceedWithoutAsking,
}

/// How uncommitted changes are handled before a feature branch is made.
pub fn on_uncommitted_changes(has_changes: bool, interactive: bool) -> (r: ChangesAction)
    ensures
        r == (if !has_changes {
            ChangesAction::Clean
        } else if interactive {
            ChangesAction::Ask
        } else {
            ChangesAction::ProceedWithoutAsking
        }),
{
    if !has_changes {
        ChangesAction::Clean
    } else if interactive {
        ChangesAction::Ask
    } else {
        ChangesAction::ProceedWithoutAsking
    }
}

/// The answer to the stash question: going on, or cancelled.
pub fn stash_answer(proceed: bool) -> (r: Result<(), GwfError>)
    ensures
        proceed ==> r is Ok,
        !proceed ==> r == Err::<(), GwfError>(GwfError::Cancelled),
{
    if proceed {
        Ok(())
    } else {
        Err(GwfError::Cancelled)
    }
}

/// Initialization refuses to overwrite a settings document unless forced.
pub fn check_init(config_exists: bool, force: bool) -> (r: Result<(), GwfError>)
    ensures
        r is Err <==> (config_exists && !force),
        r matches Err(e) ==> e == GwfError::AlreadyInitialized,
{
    if config_exists && !force {
        Err(GwfError::AlreadyInitialized)
    } else {
        Ok(())
    }
}

/// The `.gitignore` text with the settings document added, or `None` when
/// it mentions the document already.
pub open spec fn gitignore_update_of(content: Seq<char>) -> Option<Seq<char>> {
    if contains_text(content, ".gwf.toml"@) {
        None
    } else {
        Some(content + "\n# GWF configuration\n.gwf.toml\n"@)
    }
}

/// The new `.gitignore` text, if it needs one.
pub fn gitignore_update(content: &str) -> (r: Option<String>)
    ensures
        match r {
            Some(t) => gitignore_update_of(content@) == Some(t@),
            None => gitignore_update_of(content@) is None,
        },
{
    if text_contains(content, ".gwf.toml") {
        None
    } else {
        Some(String::from_str(content).concat("\n# GWF configuration\n.gwf.toml\n"))
    }
}

} // verus!
