//! What is done for each entry that is reproduced.

use crate::path::{all_normal, FsPath, PathView};
use crate::walk::{is_excluded, EntryKind, TreeEntry, TreeEntryView};
use vstd::prelude::*;

verus! {

/// What reproducing one entry takes.
#[derive(Debug, PartialEq, Eq)]
pub enum FileOperation {
    /// Create the directory `target`.
    CreateDirectory { target: FsPath },
    /// Write to `target` the bytes that `source` holds.
    CopyFile { source: FsPath, target: FsPath },
}

/// The mathematical value of a [`FileOperation`].
pub enum OperationView {
    CreateDirectory { target: PathView },
    CopyFile { source: PathView, target: PathView },
}

impl View for FileOperation {
    type V = OperationView;

    open spec fn view(&self) -> OperationView {
        match *self {
            FileOperation::CreateDirectory { target } => OperationView::CreateDirectory {
                target: target@,
            },
            FileOperation::CopyFile { source, target } => OperationView::CopyFile {
                source: source@,
                target: target@,
            },
        }
    }
}

impl OperationView {
    /// The path that the operation creates or writes.
    pub open spec fn target(self) -> PathView {
        match self {
            OperationView::CreateDirectory { target } => target,
            OperationView::CopyFile { target, .. } => target,
        }
    }
}

/// An entry is reproduced at the place below the destination where it lies
/// below the template's root: a directory is created there, a file is copied
/// there from where it lies in the template.
pub open spec fn planned(entry: TreeEntryView, destination_root: PathView) -> OperationView {
    match entry.kind {
        EntryKind::Directory => OperationView::CreateDirectory {
            target: destination_root.extend(entry.relative_path),
        },
        EntryKind::File => OperationView::CopyFile {
            source: entry.absolute_source_path,
            target: destination_root.extend(entry.relative_path),
        },
    }
}

/// Says what reproducing `entry` below `destination_root` takes: see
/// [`planned`].
pub fn materialize(entry: TreeEntry, destination_root: &FsPath) -> (r: FileOperation)
    ensures
        r@ == planned(entry@, destination_root@),
{
    let target = destination_root.extend(&entry.relative_path);
    match entry.kind {
        EntryKind::Directory => FileOperation::CreateDirectory { target },
        EntryKind::File => FileOperation::CopyFile {
            source: entry.absolute_source_path,
            target,
        },
    }
}

/// A path reached from `base` by the segments of `rest` lies at or below
/// `base`, and `rest` is what is left of it below `base`.
pub proof fn lemma_extend_strip(base: PathView, rest: Seq<Seq<char>>)
    ensures
        base.extend(rest).starts_with(base),
        base.extend(rest).strip_prefix(base) == Some(rest),
{
    let whole = base.extend(rest);
    assert(whole.segments.subrange(0, base.segments.len() as int) =~= base.segments);
    assert(whole.segments.subrange(base.segments.len() as int, whole.segments.len() as int)
        =~= rest);
}

/// What is created or written for an entry that is reproduced lies strictly
/// below the destination, on a way down that never turns back, and no
/// segment of that way is the directory of version control.
pub proof fn lemma_target_stays_below(entry: TreeEntryView, destination_root: PathView)
    requires
        entry.wf(),
    ensures
        planned(entry, destination_root).target().starts_with(destination_root),
        planned(entry, destination_root).target().strip_prefix(destination_root) == Some(
            entry.relative_path,
        ),
        planned(entry, destination_root).target() != destination_root,
        all_normal(entry.relative_path),
        !is_excluded(entry.relative_path),
{
    lemma_extend_strip(destination_root, entry.relative_path);
    let target = destination_root.extend(entry.relative_path);
    assert(target.segments.len() == destination_root.segments.len() + entry.relative_path.len());
}

} // verus!
