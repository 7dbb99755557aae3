//! Locating the first unescaped comment marker of a line.
//!
//! A `%` begins a trailing comment unless the character just before it
//! is a backslash. `find_comment_index` returns the character index of
//! the first such marker, or `None` when the line has none.

use vstd::prelude::*;

verus! {

/// Whether the character at `i` is an unescaped comment marker.
pub open spec fn is_comment_marker(s: Seq<char>, i: int) -> bool {
    &&& 0 <= i < s.len()
    &&& s[i] == '%'
    &&& (i == 0 || s[i - 1] != '\\')
}

/// The first unescaped comment marker at or after `i`, or `None`.
pub closed spec fn first_marker_from(s: Seq<char>, i: int) -> Option<int>
    decreases s.len() - i,
{
    if i < 0 || i >= s.len() {
        Option::None
    } else if is_comment_marker(s, i) {
        Option::Some(i)
    } else {
        first_marker_from(s, i + 1)
    }
}

/// The index of the line's first unescaped comment marker, or `None`.
pub open spec fn comment_index(s: Seq<char>) -> Option<int> {
    first_marker_from(s, 0)
}

/// `first_marker_from` returns exactly the least marker index at or
/// after `i`.
proof fn lemma_first_marker_from(s: Seq<char>, i: int)
    requires
        0 <= i <= s.len(),
    ensures
        first_marker_from(s, i) matches Option::Some(c) ==> i <= c < s.len()
            && is_comment_marker(s, c) && (forall|j: int|
            i <= j < c ==> !is_comment_marker(s, j)),
        first_marker_from(s, i) is None ==> forall|j: int|
            i <= j < s.len() ==> !is_comment_marker(s, j),
    decreases s.len() - i,
{
    if i < s.len() && !is_comment_marker(s, i) {
        lemma_first_marker_from(s, i + 1);
    }
}

/// The index of the first unescaped comment marker: the least `c` with
/// `s[c] == '%'` not preceded by a backslash, or `None` when no such
/// index exists.
pub proof fn lemma_comment_index(s: Seq<char>)
    ensures
        comment_index(s) matches Option::Some(c) ==> is_comment_marker(s, c) && (forall|j: int|
            0 <= j < c ==> !is_comment_marker(s, j)),
        comment_index(s) is None ==> forall|j: int| 0 <= j < s.len() ==> !is_comment_marker(s, j),
{
    lemma_first_marker_from(s, 0);
}

/// Find the character index of the line's first unescaped comment
/// marker, or `None` when the line has no trailing comment.
pub fn find_comment_index(line: &str) -> (r: Option<usize>)
    ensures
        match r {
            Option::Some(c) => comment_index(line@) == Option::Some(c as int),
            Option::None => comment_index(line@) is None,
        },
{
    let n = line.unicode_len();
    let mut i: usize = 0;
    let mut prev: Option<char> = None;
    while i < n
        invariant
            0 <= i <= n,
            n == line@.len(),
            i > 0 ==> prev == Option::Some(line@[i - 1]),
            i == 0 ==> prev is None,
            first_marker_from(line@, 0) == first_marker_from(line@, i as int),
        decreases n - i,
    {
        let c = line.get_char(i);
        let escaped = match prev {
            Some(p) => p == '\\',
            None => false,
        };
        if c == '%' && !escaped {
            assert(is_comment_marker(line@, i as int));
            return Some(i);
        }
        assert(!is_comment_marker(line@, i as int));
        assert(first_marker_from(line@, i as int) == first_marker_from(line@, i + 1));
        prev = Some(c);
        i = i + 1;
    }
    assert(first_marker_from(line@, n as int) is None);
    None
}

} // verus!
