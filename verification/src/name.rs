//! How a project gets its name.

use crate::errors::{ErrorView, TemployError};
use crate::path::{FsPath, PathView};
use crate::scan::{find_first_segment_end, find_last_segment_start, first_segment, last_segment};
use vstd::prelude::*;

verus! {

/// What is appended to a name that was derived and not given.
pub const DEFAULT_IDENT: &'static str = "-clone";

/// The text of [`DEFAULT_IDENT`].
pub open spec fn default_ident() -> Seq<char> {
    seq!['-', 'c', 'l', 'o', 'n', 'e']
}

/// The name of the repository that a link leads to: the last of the link's
/// segments between slashes, up to its first dot.
pub open spec fn repo_stem(link: Seq<char>) -> Seq<char> {
    first_segment(last_segment(link, '/'), '.')
}

/// The name of a project before it is normalized:
/// - the name that was given; else
/// - where a link to a repository was given, the repository's name followed
///   by [`DEFAULT_IDENT`], unless the link ends in a slash or is empty; else
/// - the name of the template's directory followed by [`DEFAULT_IDENT`],
///   unless the template is not a directory.
pub open spec fn resolved_name(
    explicit_name: Option<Seq<char>>,
    source_identifier: Option<Seq<char>>,
    template_root: PathView,
    template_is_dir: bool,
) -> Result<Seq<char>, ErrorView> {
    match explicit_name {
        Some(name) => Ok(name),
        None => match source_identifier {
            Some(link) => if last_segment(link, '/').len() == 0 {
                Err(ErrorView::InvalidGithubLink { link })
            } else {
                Ok(repo_stem(link) + default_ident())
            },
            None => if template_is_dir {
                Ok(template_root.file_name() + default_ident())
            } else {
                Err(ErrorView::InvalidTemplatePath { path: template_root })
            },
        },
    }
}

/// The mathematical value of what [`resolve`] returns.
pub open spec fn name_view(r: Result<String, TemployError>) -> Result<Seq<char>, ErrorView> {
    match r {
        Ok(name) => Ok(name@),
        Err(e) => Err(e@),
    }
}

/// The mathematical value of a text that may be absent.
pub open spec fn text_view(t: Option<String>) -> Option<Seq<char>> {
    match t {
        Some(s) => Some(s@),
        None => None,
    }
}

/// The name of the repository that `link` leads to.
pub fn repo_name(link: &str) -> (r: String)
    ensures
        r@ == repo_stem(link@),
{
    let n = link.unicode_len();
    let start = find_last_segment_start(link, '/');
    let tail = link.substring_char(start, n);
    let end = find_first_segment_end(tail, '.');
    String::from_str(tail.substring_char(0, end))
}

/// Derives the name of the project: see [`resolved_name`].
pub fn resolve(
    explicit_name: &Option<String>,
    source_identifier: &Option<String>,
    template_root: &FsPath,
    template_is_dir: bool,
) -> (r: Result<String, TemployError>)
    ensures
        name_view(r) == resolved_name(
            text_view(*explicit_name),
            text_view(*source_identifier),
            template_root@,
            template_is_dir,
        ),
{
    proof {
        reveal_strlit("-clone");
    }
    assert(DEFAULT_IDENT@ =~= default_ident());
    match explicit_name {
        Some(name) => Ok(name.clone()),
        None => match source_identifier {
            Some(link) => {
                let n = link.as_str().unicode_len();
                let start = find_last_segment_start(link.as_str(), '/');
                if start == n {
                    Err(TemployError::InvalidGithubLink { link: link.clone() })
                } else {
                    let mut name = repo_name(link.as_str());
                    name.append(DEFAULT_IDENT);
                    Ok(name)
                }
            },
            None => {
                if template_is_dir {
                    let mut name = template_root.file_name();
                    name.append(DEFAULT_IDENT);
                    Ok(name)
                } else {
                    Err(TemployError::InvalidTemplatePath { path: template_root.duplicate() })
                }
            },
        },
    }
}

} // verus!
