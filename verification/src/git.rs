//! Templates that live in a repository.

use crate::path::{parsed, same_text, FsPath, PathView};
use vstd::prelude::*;

verus! {

/// What marks a template as a repository: the end of its location.
pub const REPOSITORY_SUFFIX: &'static str = ".git";

/// The text of [`REPOSITORY_SUFFIX`].
pub open spec fn repository_suffix() -> Seq<char> {
    seq!['.', 'g', 'i', 't']
}

/// What marks a repository as one that is reached without a key.
pub const WEB_SCHEME: &'static str = "http";

/// The text of [`WEB_SCHEME`].
pub open spec fn web_scheme() -> Seq<char> {
    seq!['h', 't', 't', 'p']
}

/// `text` ends with `suffix`.
pub open spec fn ends_with(text: Seq<char>, suffix: Seq<char>) -> bool {
    &&& suffix.len() <= text.len()
    &&& text.subrange(text.len() - suffix.len(), text.len() as int) == suffix
}

/// `part` occurs in `text`, at some place, without a gap.
pub open spec fn occurs_in(part: Seq<char>, text: Seq<char>) -> bool {
    exists|i: int| occurs_at(part, text, i)
}

/// `part` occurs in `text` at the index `i`.
pub open spec fn occurs_at(part: Seq<char>, text: Seq<char>, i: int) -> bool {
    &&& 0 <= i
    &&& i + part.len() <= text.len()
    &&& text.subrange(i, i + part.len()) == part
}

/// A repository that is to be cloned, and the directory that takes the clone.
#[derive(Debug, PartialEq, Eq)]
pub struct CloneRequest {
    pub repo: String,
    pub target_dir: FsPath,
}

/// The mathematical value of a [`CloneRequest`].
pub struct CloneRequestView {
    pub repo: Seq<char>,
    pub target_dir: PathView,
}

impl View for CloneRequest {
    type V = CloneRequestView;

    open spec fn view(&self) -> CloneRequestView {
        CloneRequestView { repo: self.repo@, target_dir: self.target_dir@ }
    }
}

/// How a repository is reached.
#[derive(Clone, Copy, Debug, PartialEq, Eq)]
pub enum Transport {
    /// Over the web, without a key.
    Web,
    /// Over a secure shell, with the user's key.
    SecureShell,
}

/// A repository is reached over the web where [`WEB_SCHEME`] occurs in its
/// location, and over a secure shell otherwise.
pub open spec fn transport_of(repo: Seq<char>) -> Transport {
    if occurs_in(web_scheme(), repo) {
        Transport::Web
    } else {
        Transport::SecureShell
    }
}

/// The file that holds the user's key, as a path below the user's home.
pub const KEY_FILE: &'static str = ".ssh/id_rsa";

/// What cloning a repository takes.
#[derive(Debug, PartialEq, Eq)]
pub enum CloneAction {
    /// Clone `repo` into `target_dir` over the web.
    Web { repo: String, target_dir: FsPath },
    /// Clone `repo` into `target_dir` over a secure shell, with the key in
    /// the file `key` below the user's home; where `ask_password`, ask the
    /// user for the key's password first.
    SecureShell { repo: String, target_dir: FsPath, key: FsPath, ask_password: bool },
}

/// The mathematical value of a [`CloneAction`].
pub enum CloneActionView {
    Web { repo: Seq<char>, target_dir: PathView },
    SecureShell { repo: Seq<char>, target_dir: PathView, key: PathView, ask_password: bool },
}

impl View for CloneAction {
    type V = CloneActionView;

    open spec fn view(&self) -> CloneActionView {
        match *self {
            CloneAction::Web { repo, target_dir } => CloneActionView::Web {
                repo: repo@,
                target_dir: target_dir@,
            },
            CloneAction::SecureShell { repo, target_dir, key, ask_password } => {
                CloneActionView::SecureShell {
                    repo: repo@,
                    target_dir: target_dir@,
                    key: key@,
                    ask_password,
                }
            },
        }
    }
}

/// How a repository is cloned: over the web where its location says so, and
/// else over a secure shell with the user's key, whose password is asked
/// for where it needs one.
pub open spec fn clone_plan(
    repo: Seq<char>,
    target_dir: PathView,
    needs_password: bool,
) -> CloneActionView {
    match transport_of(repo) {
        Transport::Web => CloneActionView::Web { repo, target_dir },
        Transport::SecureShell => CloneActionView::SecureShell {
            repo,
            target_dir,
            key: parsed(KEY_FILE@),
            ask_password: needs_password,
        },
    }
}

/// Tells whether a template's location names a repository.
pub fn is_repository(template: &str) -> (r: bool)
    ensures
        r == ends_with(template@, repository_suffix()),
{
    proof {
        reveal_strlit(".git");
    }
    assert(REPOSITORY_SUFFIX@ =~= repository_suffix());
    let n = template.unicode_len();
    n >= 4 && same_text(template.substring_char(n - 4, n), REPOSITORY_SUFFIX)
}

/// Tells how the repository at `repo` is reached: see [`transport_of`].
pub fn transport(repo: &str) -> (r: Transport)
    ensures
        r == transport_of(repo@),
{
    proof {
        reveal_strlit("http");
    }
    assert(WEB_SCHEME@ =~= web_scheme());
    let n = repo.unicode_len();
    if n < 4 {
        assert forall|i: int| !occurs_at(web_scheme(), repo@, i) by {}
        return Transport::SecureShell;
    }
    let mut i: usize = 0;
    while i <= n - 4
        invariant
            n == repo@.len(),
            n >= 4,
            i <= n - 3,
            WEB_SCHEME@ == web_scheme(),
            forall|k: int| 0 <= k < i ==> !occurs_at(web_scheme(), repo@, k),
        decreases n - i,
    {
        if same_text(repo.substring_char(i, i + 4), WEB_SCHEME) {
            assert(occurs_at(web_scheme(), repo@, i as int));
            return Transport::Web;
        }
        i += 1;
    }
    assert forall|k: int| !occurs_at(web_scheme(), repo@, k) by {}
    Transport::SecureShell
}

/// Says what cloning `repo` into `target_dir` takes: see [`clone_plan`].
pub fn clone(repo: &str, target_dir: &FsPath, needs_password: bool) -> (r: CloneAction)
    ensures
        r@ == clone_plan(repo@, target_dir@, needs_password),
{
    match transport(repo) {
        Transport::Web => CloneAction::Web {
            repo: String::from_str(repo),
            target_dir: target_dir.duplicate(),
        },
        Transport::SecureShell => CloneAction::SecureShell {
            repo: String::from_str(repo),
            target_dir: target_dir.duplicate(),
            key: FsPath::parse(KEY_FILE),
            ask_password: needs_password,
        },
    }
}

} // verus!
