//! Which entries of a template tree are reproduced.

use crate::errors::{ErrorView, TemployError};
use crate::path::{all_normal, all_normal_names, same_text, FsPath, PathView};
use vstd::prelude::*;

verus! {

/// The name of the directory in which version control keeps its own data.
pub const VCS_DIR: &'static str = ".git";

/// The text of [`VCS_DIR`].
pub open spec fn vcs_dir() -> Seq<char> {
    seq!['.', 'g', 'i', 't']
}

/// An entry as the traversal of the template found it.
#[derive(Debug, PartialEq, Eq)]
pub struct WalkedEntry {
    /// Where the entry lies; for the template's root, the root itself.
    pub path: FsPath,
    /// Whether the entry is a directory.
    pub is_dir: bool,
}

/// The mathematical value of a [`WalkedEntry`].
pub struct WalkedView {
    pub path: PathView,
    pub is_dir: bool,
}

impl View for WalkedEntry {
    type V = WalkedView;

    open spec fn view(&self) -> WalkedView {
        WalkedView { path: self.path@, is_dir: self.is_dir }
    }
}

/// What an entry of the template is.
#[derive(Clone, Copy, Debug, PartialEq, Eq)]
pub enum EntryKind {
    File,
    Directory,
}

/// An entry of the template that is to be reproduced.
#[derive(Debug, PartialEq, Eq)]
pub struct TreeEntry {
    /// Where the entry lies below the template's root.
    pub relative_path: Vec<String>,
    pub kind: EntryKind,
    /// Where the entry lies.
    pub absolute_source_path: FsPath,
}

/// The mathematical value of a [`TreeEntry`].
pub struct TreeEntryView {
    pub relative_path: Seq<Seq<char>>,
    pub kind: EntryKind,
    pub absolute_source_path: PathView,
}

impl View for TreeEntry {
    type V = TreeEntryView;

    open spec fn view(&self) -> TreeEntryView {
        TreeEntryView {
            relative_path: self.relative_path.deep_view(),
            kind: self.kind,
            absolute_source_path: self.absolute_source_path@,
        }
    }
}

/// A relative path is left out where one of its segments is [`VCS_DIR`].
pub open spec fn is_excluded(relative_path: Seq<Seq<char>>) -> bool {
    relative_path.contains(vcs_dir())
}

impl TreeEntryView {
    /// What holds of every entry that is reproduced: it lies strictly below
    /// the template's root, each segment of its relative path names an entry
    /// of a directory, and none of them is [`VCS_DIR`].
    pub open spec fn wf(self) -> bool {
        &&& self.relative_path.len() > 0
        &&& all_normal(self.relative_path)
        &&& !is_excluded(self.relative_path)
    }
}

/// What becomes of an entry that the traversal found:
/// - one that does not lie at or below the template's root by segments that
///   name entries of directories is an error;
/// - the root itself, and an entry with [`VCS_DIR`] among the segments of its
///   relative path, is passed over;
/// - any other is reproduced, as a directory or as a file.
pub open spec fn classified(root: PathView, walked: WalkedView) -> Result<
    Option<TreeEntryView>,
    ErrorView,
> {
    match walked.path.strip_prefix(root) {
        None => Err(ErrorView::FailedToStripPrefix),
        Some(rest) => if !all_normal(rest) {
            Err(ErrorView::FailedToStripPrefix)
        } else if rest.len() == 0 || is_excluded(rest) {
            Ok(None)
        } else {
            Ok(
                Some(
                    TreeEntryView {
                        relative_path: rest,
                        kind: if walked.is_dir {
                            EntryKind::Directory
                        } else {
                            EntryKind::File
                        },
                        absolute_source_path: walked.path,
                    },
                ),
            )
        },
    }
}

/// The mathematical value of what [`TreeEntry::from_walked`] returns.
pub open spec fn classified_view(r: Result<Option<TreeEntry>, TemployError>) -> Result<
    Option<TreeEntryView>,
    ErrorView,
> {
    match r {
        Ok(Some(entry)) => Ok(Some(entry@)),
        Ok(None) => Ok(None),
        Err(e) => Err(e@),
    }
}

/// Tells whether one of the segments is [`VCS_DIR`].
pub fn has_vcs_segment(relative_path: &Vec<String>) -> (r: bool)
    ensures
        r == is_excluded(relative_path.deep_view()),
{
    proof {
        reveal_strlit(".git");
    }
    assert(VCS_DIR@ =~= vcs_dir());
    let mut i: usize = 0;
    while i < relative_path.len()
        invariant
            i <= relative_path.len(),
            VCS_DIR@ == vcs_dir(),
            forall|k: int| 0 <= k < i ==> relative_path.deep_view()[k] != vcs_dir(),
        decreases relative_path.len() - i,
    {
        assert(relative_path.deep_view()[i as int] == relative_path[i as int]@);
        if same_text(relative_path[i].as_str(), VCS_DIR) {
            return true;
        }
        i += 1;
    }
    false
}

impl TreeEntry {
    /// Decides what becomes of an entry that the traversal of the template
    /// below `root` found: see [`classified`].
    pub fn from_walked(root: &FsPath, walked: WalkedEntry) -> (r: Result<
        Option<TreeEntry>,
        TemployError,
    >)
        ensures
            classified_view(r) == classified(root@, walked@),
            r matches Ok(Some(entry)) ==> entry@.wf(),
    {
        match walked.path.strip_prefix(root) {
            None => Err(TemployError::FailedToStripPrefix),
            Some(rest) => {
                if !all_normal_names(&rest) {
                    Err(TemployError::FailedToStripPrefix)
                } else if rest.len() == 0 || has_vcs_segment(&rest) {
                    Ok(None)
                } else {
                    let kind = if walked.is_dir {
                        EntryKind::Directory
                    } else {
                        EntryKind::File
                    };
                    Ok(
                        Some(
                            TreeEntry {
                                relative_path: rest,
                                kind,
                                absolute_source_path: walked.path,
                            },
                        ),
                    )
                }
            },
        }
    }
}

} // verus!
