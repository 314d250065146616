//! Where a new project is put.

use crate::path::{clone_names, is_normal, is_normal_segment, same_text, FsPath, PathView};
use crate::text::{kebab_case, normalize_name};
use vstd::prelude::*;

verus! {

/// The path that joining `segment` to `parent` gives: the one that
/// `segment` names below `parent`, and `parent` itself where `segment` is
/// empty. It is the path of which a run asks whether it exists already.
pub open spec fn destination_below(parent: PathView, segment: Seq<char>) -> PathView {
    if segment.len() == 0 {
        parent
    } else {
        parent.extend(seq![segment])
    }
}

/// A project's directory can be made at `candidate` under the name
/// `segment`: the name is that of an entry of a directory (not empty,
/// neither `.` nor `..`, free of slashes), and `candidate` ends in it.
///
/// So a project's directory is never the directory in which it is made. A
/// project whose name stands for no directory has none made for it: where
/// the path that the join gives is free, the run ends with
/// [`crate::TemployError::FailedToCreateDir`], since no directory can be
/// created under such a name.
pub open spec fn can_be_made(candidate: PathView, segment: Seq<char>) -> bool {
    &&& is_normal_segment(segment)
    &&& candidate.segments.len() > 0
    &&& candidate.segments.last() == segment
}

/// The path below `parent` that a normalized name gives: see
/// [`destination_below`].
pub fn destination_with(parent: &FsPath, normalized: String) -> (r: FsPath)
    ensures
        r@ == destination_below(parent@, normalized@),
{
    let mut segments = clone_names(&parent.segments);
    if !normalized.as_str().is_empty() {
        let ghost before = segments.deep_view();
        let ghost name = normalized@;
        segments.push(normalized);
        assert(segments.deep_view() =~= before + seq![name]);
    }
    FsPath { absolute: parent.absolute, segments }
}

/// The path below `parent` for a project with the raw name `raw_name`: the
/// one that the name's kebab case gives.
pub fn destination(parent: &FsPath, raw_name: &str) -> (r: FsPath)
    ensures
        r@ == destination_below(parent@, kebab_case(raw_name@)),
{
    destination_with(parent, normalize_name(raw_name))
}

/// Tells whether a project's directory can be made at `candidate` under the
/// normalized name: see [`can_be_made`].
pub fn is_creatable_with(candidate: &FsPath, normalized: &str) -> (r: bool)
    ensures
        r == can_be_made(candidate@, normalized@),
{
    let n = candidate.segments.len();
    if n == 0 || !is_normal(normalized) {
        return false;
    }
    assert(candidate@.segments.last() == candidate.segments[n - 1]@);
    same_text(candidate.segments[n - 1].as_str(), normalized)
}

/// Tells whether a project's directory can be made at `candidate` for a
/// project with the raw name `raw_name`: see [`can_be_made`].
pub fn is_creatable(candidate: &FsPath, raw_name: &str) -> (r: bool)
    ensures
        r == can_be_made(candidate@, kebab_case(raw_name@)),
{
    let normalized = normalize_name(raw_name);
    is_creatable_with(candidate, normalized.as_str())
}

/// Where a project's directory can be made, it lies strictly below its
/// parent, by the one segment that names it. Where the name stands for no
/// directory, none can be made, whatever the path.
pub proof fn lemma_destination_is_a_child(parent: PathView, segment: Seq<char>)
    ensures
        is_normal_segment(segment) ==> {
            let candidate = destination_below(parent, segment);
            &&& can_be_made(candidate, segment)
            &&& candidate != parent
            &&& candidate.starts_with(parent)
            &&& candidate.strip_prefix(parent) == Some(seq![segment])
            &&& candidate.file_name() == segment
        },
        !is_normal_segment(segment) ==> forall|candidate: PathView|
            !can_be_made(candidate, segment),
        segment.len() == 0 ==> destination_below(parent, segment) == parent,
{
    if is_normal_segment(segment) {
        let candidate = parent.extend(seq![segment]);
        let n = parent.segments.len() as int;
        assert(candidate.segments.len() == n + 1);
        assert(candidate.segments.subrange(0, n) =~= parent.segments);
        assert(candidate.segments.subrange(n, n + 1) =~= seq![segment]);
        assert(candidate.segments.last() == segment);
    }
}

} // verus!
