//! Finding the separators of a text.

use vstd::prelude::*;

verus! {

/// Where the part of `s` behind its last `sep` starts: just behind that
/// `sep`, or at the start where `s` holds none.
pub open spec fn last_segment_start(s: Seq<char>, sep: char) -> nat
    decreases s.len(),
{
    if s.len() == 0 {
        0
    } else if s.last() == sep {
        s.len()
    } else {
        last_segment_start(s.drop_last(), sep)
    }
}

/// The part of `s` behind its last `sep`; all of `s` where it holds none.
pub open spec fn last_segment(s: Seq<char>, sep: char) -> Seq<char> {
    s.subrange(last_segment_start(s, sep) as int, s.len() as int)
}

/// Finds where the part of `s` behind its last `sep` starts.
pub fn find_last_segment_start(s: &str, sep: char) -> (r: usize)
    ensures
        r == last_segment_start(s@, sep),
        r <= s@.len(),
{
    let n = s.unicode_len();
    let mut start: usize = 0;
    let mut i: usize = 0;
    for c in it: s.chars()
        invariant
            n == s@.len(),
            it.seq() == s@,
            i == it.index(),
            start <= i <= n,
            start == last_segment_start(s@.subrange(0, i as int), sep),
    {
        assert(s@.subrange(0, i + 1).drop_last() =~= s@.subrange(0, i as int));
        i += 1;
        if c == sep {
            start = i;
        }
    }
    assert(s@.subrange(0, i as int) =~= s@);
    start
}

/// Where the part of `s` before its first `sep` ends: at that `sep`, or at
/// the end where `s` holds none.
pub open spec fn first_segment_end(s: Seq<char>, sep: char) -> nat
    decreases s.len(),
{
    if s.len() == 0 {
        0
    } else if s[0] == sep {
        0
    } else {
        1 + first_segment_end(s.drop_first(), sep)
    }
}

/// The part of `s` before its first `sep`; all of `s` where it holds none.
pub open spec fn first_segment(s: Seq<char>, sep: char) -> Seq<char> {
    s.subrange(0, first_segment_end(s, sep) as int)
}

/// The part behind the last `sep` holds no `sep`, and starts at the start or
/// just behind one.
pub proof fn lemma_last_segment_start(s: Seq<char>, sep: char)
    ensures
        last_segment_start(s, sep) <= s.len(),
        last_segment_start(s, sep) == 0 || s[last_segment_start(s, sep) - 1] == sep,
        forall|i: int| last_segment_start(s, sep) <= i < s.len() ==> s[i] != sep,
    decreases s.len(),
{
    if s.len() > 0 && s.last() != sep {
        let front = s.drop_last();
        lemma_last_segment_start(front, sep);
        assert forall|i: int| last_segment_start(s, sep) <= i < s.len() implies s[i] != sep by {
            if i < front.len() {
                assert(s[i] == front[i]);
            }
        }
    }
}

/// An index from which on `s` holds no `sep`, and which is the start or lies
/// just behind one, is where the part behind the last `sep` starts.
pub proof fn lemma_last_segment_start_is(s: Seq<char>, sep: char, start: int)
    requires
        0 <= start <= s.len(),
        start == 0 || s[start - 1] == sep,
        forall|i: int| start <= i < s.len() ==> s[i] != sep,
    ensures
        last_segment_start(s, sep) == start,
    decreases s.len(),
{
    if start < s.len() {
        let front = s.drop_last();
        assert forall|i: int| start <= i < front.len() implies front[i] != sep by {
            assert(front[i] == s[i]);
        }
        if start > 0 {
            assert(front[start - 1] == s[start - 1]);
        }
        lemma_last_segment_start_is(front, sep, start);
    }
}

/// An index before which `s` holds no `sep`, and which is the end or holds
/// one, is where the first segment ends.
pub proof fn lemma_first_segment_end(s: Seq<char>, sep: char, end: int)
    requires
        0 <= end <= s.len(),
        forall|i: int| 0 <= i < end ==> s[i] != sep,
        end == s.len() || s[end] == sep,
    ensures
        first_segment_end(s, sep) == end,
    decreases s.len(),
{
    if end > 0 {
        let rest = s.drop_first();
        assert forall|i: int| 0 <= i < end - 1 implies rest[i] != sep by {
            assert(rest[i] == s[i + 1]);
        }
        lemma_first_segment_end(rest, sep, end - 1);
    }
}

/// Finds where the part of `s` before its first `sep` ends.
pub fn find_first_segment_end(s: &str, sep: char) -> (r: usize)
    ensures
        r == first_segment_end(s@, sep),
        r <= s@.len(),
{
    let n = s.unicode_len();
    let mut end: usize = 0;
    let mut found = false;
    let mut i: usize = 0;
    for c in it: s.chars()
        invariant
            n == s@.len(),
            it.seq() == s@,
            i == it.index(),
            end <= i <= n,
            !found ==> end == i,
            found ==> end < n && s@[end as int] == sep,
            forall|k: int| 0 <= k < end ==> s@[k] != sep,
    {
        i += 1;
        if !found {
            if c == sep {
                found = true;
            } else {
                end = i;
            }
        }
    }
    proof {
        lemma_first_segment_end(s@, sep, end as int);
    }
    end
}

} // verus!
