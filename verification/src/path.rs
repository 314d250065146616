//! Paths as sequences of named segments.

use crate::scan::{last_segment_start, lemma_last_segment_start, lemma_last_segment_start_is};
use vstd::prelude::*;

verus! {

/// The mathematical value of a path: whether it starts at the root, and the
/// names of its segments from the outermost to the innermost.
pub struct PathView {
    pub absolute: bool,
    pub segments: Seq<Seq<char>>,
}

/// A path, held as its segments.
#[derive(Clone, Debug, PartialEq, Eq)]
pub struct FsPath {
    pub absolute: bool,
    pub segments: Vec<String>,
}

impl View for FsPath {
    type V = PathView;

    open spec fn view(&self) -> PathView {
        PathView { absolute: self.absolute, segments: self.segments.deep_view() }
    }
}

/// A segment that names an entry of a directory: not empty, neither `.` nor
/// `..`, and free of the separator.
pub open spec fn is_normal_segment(s: Seq<char>) -> bool {
    &&& s.len() > 0
    &&& s != seq!['.']
    &&& s != seq!['.', '.']
    &&& !s.contains('/')
}

/// Every segment of `segments` names an entry of a directory.
pub open spec fn all_normal(segments: Seq<Seq<char>>) -> bool {
    forall|i: int| 0 <= i < segments.len() ==> is_normal_segment(#[trigger] segments[i])
}

impl PathView {
    /// The path with the segments of `rest` appended.
    pub open spec fn extend(self, rest: Seq<Seq<char>>) -> PathView {
        PathView { absolute: self.absolute, segments: self.segments + rest }
    }

    /// The name of the innermost segment, empty where the path has none.
    pub open spec fn file_name(self) -> Seq<char> {
        if self.segments.len() == 0 {
            Seq::empty()
        } else {
            self.segments.last()
        }
    }

    /// `self` lies at or below `base`.
    pub open spec fn starts_with(self, base: PathView) -> bool {
        &&& self.absolute == base.absolute
        &&& base.segments.len() <= self.segments.len()
        &&& self.segments.subrange(0, base.segments.len() as int) == base.segments
    }

    /// What is left of `self` below `base`, where it lies there.
    pub open spec fn strip_prefix(self, base: PathView) -> Option<Seq<Seq<char>>> {
        if self.starts_with(base) {
            Some(self.segments.subrange(base.segments.len() as int, self.segments.len() as int))
        } else {
            None
        }
    }
}

/// A piece between two separators that adds nothing to a path: an empty
/// one, and `.` behind an earlier piece. A `.` with which a text starts
/// stays: it names the working directory, which the empty text does not.
pub open spec fn is_skipped_piece(piece: Seq<char>, first: bool) -> bool {
    piece.len() == 0 || (piece == seq!['.'] && !first)
}

/// The segments that a path's text names: the pieces between its slashes
/// from left to right, but for those that add nothing.
pub open spec fn parsed_segments(text: Seq<char>) -> Seq<Seq<char>>
    decreases text.len(),
    via parsed_segments_decreases
{
    let start = last_segment_start(text, '/') as int;
    let piece = text.subrange(start, text.len() as int);
    let before = if start == 0 {
        Seq::empty()
    } else {
        parsed_segments(text.subrange(0, start - 1))
    };
    if is_skipped_piece(piece, start == 0) {
        before
    } else {
        before.push(piece)
    }
}

#[via_fn]
proof fn parsed_segments_decreases(text: Seq<char>) {
    lemma_last_segment_start(text, '/');
}

/// The path that a text names: it starts at the root where the text starts
/// with a slash. The empty text names the relative path without a segment,
/// and `.` the one whose only segment is `.`.
pub open spec fn parsed(text: Seq<char>) -> PathView {
    PathView {
        absolute: text.len() > 0 && text[0] == '/',
        segments: parsed_segments(text),
    }
}

/// The segments written one after the other, with a slash between each two.
pub open spec fn joined(segments: Seq<Seq<char>>) -> Seq<char>
    decreases segments.len(),
{
    if segments.len() == 0 {
        Seq::empty()
    } else if segments.len() == 1 {
        segments[0]
    } else {
        joined(segments.drop_last()) + seq!['/'] + segments.last()
    }
}

/// The text of a path: its segments with slashes between them, behind a
/// slash where the path starts at the root. The text of the relative path
/// without a segment is empty.
pub open spec fn rendered(path: PathView) -> Seq<char> {
    if path.absolute {
        seq!['/'] + joined(path.segments)
    } else {
        joined(path.segments)
    }
}

/// What holds of the segments that are read from a text: none is empty,
/// none holds a slash, and `.` stands at most at the start of a path that
/// does not start at the root.
pub open spec fn all_readable(rooted: bool, segments: Seq<Seq<char>>) -> bool {
    forall|i: int|
        0 <= i < segments.len() ==> {
            &&& (#[trigger] segments[i]).len() > 0
            &&& !segments[i].contains('/')
            &&& (segments[i] == seq!['.'] ==> i == 0 && !rooted)
        }
}

/// The segments that are read from a text are readable: see
/// [`all_readable`].
pub proof fn lemma_parsed_segments(text: Seq<char>)
    ensures
        all_readable(text.len() > 0 && text[0] == '/', parsed_segments(text)),
    decreases text.len(),
{
    lemma_last_segment_start(text, '/');
    let rooted = text.len() > 0 && text[0] == '/';
    let start = last_segment_start(text, '/') as int;
    let piece = text.subrange(start, text.len() as int);
    let before = if start == 0 {
        Seq::<Seq<char>>::empty()
    } else {
        parsed_segments(text.subrange(0, start - 1))
    };
    if start > 0 {
        let prefix = text.subrange(0, start - 1);
        lemma_parsed_segments(prefix);
        if prefix.len() > 0 {
            assert(prefix[0] == text[0]);
        } else {
            assert(last_segment_start(prefix, '/') == 0);
            assert(prefix.subrange(0, 0) =~= prefix);
            assert(parsed_segments(prefix) =~= Seq::<Seq<char>>::empty());
        }
    }
    assert forall|k: int| 0 <= k < piece.len() implies piece[k] != '/' by {
        assert(piece[k] == text[start + k]);
    }
    assert(!piece.contains('/'));
    if start == 0 && piece.len() > 0 {
        assert(piece[0] == text[0]);
    }
    let segments = parsed_segments(text);
    assert forall|i: int| 0 <= i < segments.len() implies {
        &&& (#[trigger] segments[i]).len() > 0
        &&& !segments[i].contains('/')
        &&& (segments[i] == seq!['.'] ==> i == 0 && !rooted)
    } by {
        if i < before.len() {
            assert(segments[i] == before[i]);
        } else {
            assert(segments[i] == piece);
        }
    }
}

/// The text of one or more segments starts with the first of them.
pub proof fn lemma_joined_starts_with_first(segments: Seq<Seq<char>>)
    requires
        segments.len() > 0,
    ensures
        joined(segments).len() >= segments[0].len(),
        joined(segments).subrange(0, segments[0].len() as int) == segments[0],
    decreases segments.len(),
{
    if segments.len() == 1 {
        assert(joined(segments).subrange(0, segments[0].len() as int) =~= segments[0]);
    } else {
        let front = segments.drop_last();
        lemma_joined_starts_with_first(front);
        assert(front[0] == segments[0]);
        assert(joined(segments).subrange(0, segments[0].len() as int) =~= joined(
            front,
        ).subrange(0, segments[0].len() as int));
    }
}

/// Readable segments that were written one after the other, behind a slash
/// or not, are read back as they were.
pub proof fn lemma_joined_reads_back(rooted: bool, segments: Seq<Seq<char>>)
    requires
        all_readable(rooted, segments),
    ensures
        parsed_segments(
            if rooted {
                seq!['/'] + joined(segments)
            } else {
                joined(segments)
            },
        ) == segments,
    decreases segments.len(),
{
    let head: Seq<char> = if rooted {
        seq!['/']
    } else {
        Seq::empty()
    };
    let text = if rooted {
        seq!['/'] + joined(segments)
    } else {
        joined(segments)
    };
    assert(text =~= head + joined(segments));
    let nothing = Seq::<char>::empty();
    assert(parsed_segments(nothing) =~= Seq::<Seq<char>>::empty()) by {
        assert(last_segment_start(nothing, '/') == 0);
        assert(nothing.subrange(0, 0) =~= nothing);
    }
    if segments.len() == 0 {
        if rooted {
            lemma_last_segment_start_is(text, '/', 1);
            assert(text.subrange(1, text.len() as int) =~= nothing);
            assert(text.subrange(0, 0) =~= nothing);
        } else {
            assert(text =~= nothing);
        }
        assert(parsed_segments(text) =~= segments);
    } else {
        let last = segments.last();
        let front = segments.drop_last();
        let start = text.len() - last.len();
        assert(segments[segments.len() - 1] == last);
        if front.len() > 0 {
            assert(joined(segments) == joined(front) + seq!['/'] + last);
            assert(text =~= head + joined(front) + seq!['/'] + last);
            assert(text[start - 1] == '/');
        } else {
            assert(joined(segments) == last);
            assert(text =~= head + last);
        }
        assert forall|i: int| start <= i < text.len() implies text[i] != '/' by {
            assert(text[i] == last[i - start]);
        }
        lemma_last_segment_start_is(text, '/', start);
        assert(text.subrange(start, text.len() as int) =~= last);
        assert(!is_skipped_piece(last, start == 0));
        if start > 0 {
            if front.len() > 0 {
                assert forall|i: int| 0 <= i < front.len() implies {
                    &&& (#[trigger] front[i]).len() > 0
                    &&& !front[i].contains('/')
                    &&& (front[i] == seq!['.'] ==> i == 0 && !rooted)
                } by {
                    assert(front[i] == segments[i]);
                }
                lemma_joined_reads_back(rooted, front);
                assert(text.subrange(0, start - 1) =~= head + joined(front));
                assert(head + joined(front) =~= if rooted {
                    seq!['/'] + joined(front)
                } else {
                    joined(front)
                });
            } else {
                assert(text.subrange(0, start - 1) =~= nothing);
            }
        }
        assert(front.push(last) =~= segments);
        assert(parsed_segments(text) =~= segments);
    }
}

/// The text of a path names that path: a path whose segments are readable
/// is read back from its text as it was.
pub proof fn lemma_text_reads_back(path: PathView)
    requires
        all_readable(path.absolute, path.segments),
    ensures
        parsed(rendered(path)) == path,
{
    lemma_joined_reads_back(path.absolute, path.segments);
    if !path.absolute && path.segments.len() > 0 {
        lemma_joined_starts_with_first(path.segments);
        let first = path.segments[0];
        assert(first.len() > 0);
        assert(joined(path.segments)[0] == joined(path.segments).subrange(
            0,
            first.len() as int,
        )[0]);
        assert(first[0] != '/') by {
            if first[0] == '/' {
                assert(first.contains('/'));
            }
        }
    }
}

/// What is read from a text, written out and read again, is what was read
/// the first time.
pub proof fn lemma_reading_is_stable(text: Seq<char>)
    ensures
        parsed(rendered(parsed(text))) == parsed(text),
{
    lemma_parsed_segments(text);
    lemma_text_reads_back(parsed(text));
}

/// The empty text and `.` name two paths: the first has no segment, the
/// second has one.
pub proof fn lemma_nothing_is_not_here()
    ensures
        parsed(Seq::<char>::empty()).segments.len() == 0,
        parsed(seq!['.']).segments == seq![seq!['.']],
        !parsed(Seq::<char>::empty()).absolute,
        !parsed(seq!['.']).absolute,
{
    let nothing = Seq::<char>::empty();
    assert(last_segment_start(nothing, '/') == 0);
    assert(nothing.subrange(0, 0) =~= nothing);
    assert(parsed_segments(nothing) =~= Seq::<Seq<char>>::empty());
    let dot = seq!['.'];
    lemma_last_segment_start_is(dot, '/', 0);
    assert(dot.subrange(0, 1) =~= dot);
    assert(parsed_segments(dot) =~= seq![dot]);
}

/// Tells whether two strings hold the same text.
pub fn same_text(a: &str, b: &str) -> (r: bool)
    ensures
        r == (a@ == b@),
{
    let x = String::from_str(a);
    let y = String::from_str(b);
    x == y
}

/// Tells whether `c` occurs in `s`.
pub fn contains_char(s: &str, c: char) -> (r: bool)
    ensures
        r == s@.contains(c),
{
    let mut found = false;
    for x in it: s.chars()
        invariant
            it.seq() == s@,
            found == s@.subrange(0, it.index() as int).contains(c),
    {
        let ghost i = it.index() as int;
        proof {
            let shorter = s@.subrange(0, i);
            let longer = s@.subrange(0, i + 1);
            assert(longer[i] == x);
            if shorter.contains(c) {
                let k = choose|k: int| 0 <= k < shorter.len() && shorter[k] == c;
                assert(longer[k] == c);
            }
            if longer.contains(c) && x != c {
                let k = choose|k: int| 0 <= k < longer.len() && longer[k] == c;
                assert(shorter[k] == c);
            }
        }
        if x == c {
            found = true;
        }
    }
    assert(s@.subrange(0, s@.len() as int) =~= s@);
    found
}

/// Tells whether `s` names an entry of a directory.
pub fn is_normal(s: &str) -> (r: bool)
    ensures
        r == is_normal_segment(s@),
{
    proof {
        reveal_strlit(".");
        reveal_strlit("..");
    }
    assert("."@ =~= seq!['.']);
    assert(".."@ =~= seq!['.', '.']);
    !s.is_empty() && !same_text(s, ".") && !same_text(s, "..") && !contains_char(s, '/')
}

/// Tells whether every one of `names` names an entry of a directory.
pub fn all_normal_names(names: &Vec<String>) -> (r: bool)
    ensures
        r == all_normal(names.deep_view()),
{
    let mut i: usize = 0;
    while i < names.len()
        invariant
            i <= names.len(),
            forall|k: int| 0 <= k < i ==> is_normal_segment(#[trigger] names.deep_view()[k]),
        decreases names.len() - i,
    {
        if !is_normal(names[i].as_str()) {
            assert(names.deep_view()[i as int] == names[i as int]@);
            return false;
        }
        assert(names.deep_view()[i as int] == names[i as int]@);
        i += 1;
    }
    true
}

/// Copies a list of names.
pub fn clone_names(names: &Vec<String>) -> (r: Vec<String>)
    ensures
        r.deep_view() == names.deep_view(),
{
    let mut out: Vec<String> = Vec::new();
    let mut i: usize = 0;
    while i < names.len()
        invariant
            i <= names.len(),
            out.len() == i,
            forall|k: int| 0 <= k < i ==> out[k]@ == names[k]@,
        decreases names.len() - i,
    {
        out.push(names[i].clone());
        i += 1;
    }
    assert(out.deep_view() =~= names.deep_view());
    out
}

impl FsPath {
    /// A second path with the same segments.
    pub fn duplicate(&self) -> (r: FsPath)
        ensures
            r@ == self@,
    {
        FsPath { absolute: self.absolute, segments: clone_names(&self.segments) }
    }

    /// Reads a path from its text: see [`parsed`].
    pub fn parse(text: &str) -> (r: FsPath)
        ensures
            r@ == parsed(text@),
    {
        proof {
            reveal_strlit(".");
        }
        assert("."@ =~= seq!['.']);
        let n = text.unicode_len();
        let absolute = n > 0 && text.get_char(0) == '/';
        let mut segments: Vec<String> = Vec::new();
        let mut start: usize = 0;
        let mut i: usize = 0;
        for c in it: text.chars()
            invariant
                n == text@.len(),
                "."@ == seq!['.'],
                it.seq() == text@,
                i == it.index(),
                start <= i <= n,
                start == 0 || text@[start - 1] == '/',
                forall|k: int| start <= k < i ==> text@[k] != '/',
                segments.deep_view() == if start == 0 {
                    Seq::<Seq<char>>::empty()
                } else {
                    parsed_segments(text@.subrange(0, start - 1))
                },
        {
            if c == '/' {
                let piece = text.substring_char(start, i);
                let ghost before = segments.deep_view();
                let ghost prefix = text@.subrange(0, i as int);
                proof {
                    lemma_last_segment_start_is(prefix, '/', start as int);
                    assert(prefix.subrange(start as int, i as int) =~= piece@);
                    if start > 0 {
                        assert(prefix.subrange(0, start - 1) =~= text@.subrange(0, start - 1));
                    }
                }
                if !(piece.is_empty() || (start > 0 && same_text(piece, "."))) {
                    segments.push(String::from_str(piece));
                    assert(segments.deep_view() =~= before.push(piece@));
                }
                start = i + 1;
            }
            i += 1;
        }
        let piece = text.substring_char(start, n);
        let ghost before = segments.deep_view();
        proof {
            lemma_last_segment_start_is(text@, '/', start as int);
        }
        if !(piece.is_empty() || (start > 0 && same_text(piece, "."))) {
            segments.push(String::from_str(piece));
            assert(segments.deep_view() =~= before.push(piece@));
        }
        FsPath { absolute, segments }
    }

    /// Writes the path as text: see [`rendered`].
    pub fn to_text(&self) -> (r: String)
        ensures
            r@ == rendered(self@),
    {
        proof {
            reveal_strlit("/");
        }
        assert("/"@ =~= seq!['/']);
        let n = self.segments.len();
        let mut out = if self.absolute {
            String::from_str("/")
        } else {
            String::new()
        };
        let ghost head = out@;
        let ghost names = self.segments.deep_view();
        let mut i: usize = 0;
        while i < n
            invariant
                n == self.segments.len(),
                names == self.segments.deep_view(),
                "/"@ == seq!['/'],
                i <= n,
                out@ == head + joined(names.subrange(0, i as int)),
            decreases n - i,
        {
            let ghost before = names.subrange(0, i as int);
            let ghost after = names.subrange(0, i + 1);
            assert(after.drop_last() =~= before);
            assert(after.last() == self.segments[i as int]@);
            if i > 0 {
                out.append("/");
            }
            out.append(self.segments[i].as_str());
            assert(out@ =~= head + joined(after));
            i += 1;
        }
        assert(names.subrange(0, n as int) =~= names);
        out
    }

    /// The path that starts at the root and has no segment.
    pub fn root() -> (r: FsPath)
        ensures
            r@ == (PathView { absolute: true, segments: Seq::empty() }),
    {
        let r = FsPath { absolute: true, segments: Vec::new() };
        assert(r@.segments =~= Seq::empty());
        r
    }

    /// The path below `self` that `rest` leads to.
    pub fn extend(&self, rest: &Vec<String>) -> (r: FsPath)
        ensures
            r@ == self@.extend(rest.deep_view()),
    {
        let mut segments = clone_names(&self.segments);
        let mut i: usize = 0;
        while i < rest.len()
            invariant
                i <= rest.len(),
                segments.deep_view() == self.segments.deep_view() + rest.deep_view().subrange(
                    0,
                    i as int,
                ),
            decreases rest.len() - i,
        {
            let ghost before = segments.deep_view();
            segments.push(rest[i].clone());
            assert(segments.deep_view() =~= before.push(rest[i as int]@));
            assert(rest.deep_view().subrange(0, i + 1) =~= rest.deep_view().subrange(
                0,
                i as int,
            ).push(rest[i as int]@));
            i += 1;
        }
        assert(rest.deep_view().subrange(0, rest.len() as int) =~= rest.deep_view());
        FsPath { absolute: self.absolute, segments }
    }

    /// The name of the innermost segment, empty where the path has none.
    pub fn file_name(&self) -> (r: String)
        ensures
            r@ == self@.file_name(),
    {
        let n = self.segments.len();
        if n == 0 {
            String::new()
        } else {
            self.segments[n - 1].clone()
        }
    }

    /// Tells whether `self` lies at or below `base`.
    pub fn starts_with(&self, base: &FsPath) -> (r: bool)
        ensures
            r == self@.starts_with(base@),
    {
        if self.absolute != base.absolute || base.segments.len() > self.segments.len() {
            return false;
        }
        let mut i: usize = 0;
        while i < base.segments.len()
            invariant
                i <= base.segments.len() <= self.segments.len(),
                forall|k: int| 0 <= k < i ==> self.segments[k]@ == base.segments[k]@,
            decreases base.segments.len() - i,
        {
            if !same_text(self.segments[i].as_str(), base.segments[i].as_str()) {
                proof {
                    let head = self@.segments.subrange(0, base.segments.len() as int);
                    assert(head[i as int] == self.segments[i as int]@);
                    assert(base@.segments[i as int] == base.segments[i as int]@);
                }
                return false;
            }
            i += 1;
        }
        assert(self@.segments.subrange(0, base.segments.len() as int) =~= base@.segments);
        true
    }

    /// What is left of `self` below `base`; `None` where `self` does not lie
    /// at or below `base`.
    pub fn strip_prefix(&self, base: &FsPath) -> (r: Option<Vec<String>>)
        ensures
            match r {
                Some(rest) => self@.strip_prefix(base@) == Some(rest.deep_view()),
                None => self@.strip_prefix(base@).is_none(),
            },
    {
        if !self.starts_with(base) {
            return None;
        }
        let mut rest: Vec<String> = Vec::new();
        let start = base.segments.len();
        let mut i: usize = start;
        while i < self.segments.len()
            invariant
                start <= i <= self.segments.len(),
                rest.deep_view() == self.segments.deep_view().subrange(start as int, i as int),
            decreases self.segments.len() - i,
        {
            let ghost before = rest.deep_view();
            rest.push(self.segments[i].clone());
            assert(rest.deep_view() =~= before.push(self.segments[i as int]@));
            assert(self.segments.deep_view().subrange(start as int, i + 1)
                =~= self.segments.deep_view().subrange(start as int, i as int).push(
                self.segments[i as int]@,
            ));
            i += 1;
        }
        Some(rest)
    }
}

} // verus!
