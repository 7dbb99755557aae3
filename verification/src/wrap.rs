//! Wrapping long lines: the decision, the break point, and the split.
//!
//! `needs_wrap` decides whether a line is a candidate at all.
//! `find_wrap_point` scans the line once, left to right, and picks the
//! break index: the first qualifying unescaped space at or after the
//! minimum column `wrap_min`, or, failing that, the last one before it.
//! `apply_wrap` splits the line there and keeps a trailing comment
//! commented on the continuation line.
//!
//! All indices and widths are character counts, never byte offsets.

use vstd::prelude::*;

use crate::comments::{comment_index, find_comment_index};
use crate::logging::{line_log_view, record_line_log, Level, Log};
use crate::{Config, State};

verus! {

/// Whether the character at `j` enables a later break: anything but an
/// unescaped space or the comment marker counts as content.
pub open spec fn is_content(s: Seq<char>, j: int) -> bool {
    &&& 0 <= j < s.len()
    &&& !(s[j] == ' ' && (j == 0 || s[j - 1] != '\\'))
    &&& s[j] != '%'
}

/// Whether index `i` may be chosen as a wrap point: an unescaped space
/// with some content character before it.
pub open spec fn eligible_break(s: Seq<char>, i: int) -> bool {
    &&& 0 <= i < s.len()
    &&& s[i] == ' '
    &&& (i == 0 || s[i - 1] != '\\')
    &&& exists|j: int| 0 <= j < i && is_content(s, j)
}

/// The scan that picks the wrap point, one character per step.
///
/// `after` records whether a content character has been seen, `prev`
/// the previous character, `cand` the best break index so far. The
/// scan stops early at the first index at or past `wrap_min` once a
/// candidate exists.
pub closed spec fn scan(
    s: Seq<char>,
    wrap_min: int,
    i: int,
    after: bool,
    prev: Option<char>,
    cand: Option<int>,
) -> Option<int>
    decreases s.len() - i,
{
    if i < 0 || i >= s.len() {
        cand
    } else if i >= wrap_min && cand is Some {
        cand
    } else {
        let c = s[i];
        if c == ' ' && prev != Option::Some('\\') {
            scan(
                s,
                wrap_min,
                i + 1,
                after,
                Option::Some(c),
                if after {
                    Option::Some(i)
                } else {
                    cand
                },
            )
        } else {
            scan(
                s,
                wrap_min,
                i + 1,
                if c != '%' {
                    true
                } else {
                    after
                },
                Option::Some(c),
                cand,
            )
        }
    }
}

/// The index at which a line is split, or `None` when it cannot be.
pub open spec fn wrap_point(s: Seq<char>, wrap_min: int) -> Option<int> {
    scan(s, wrap_min, 0, false, Option::None, Option::None)
}

/// What the scan returns, from any reachable intermediate state: only
/// eligible indices come back, `None` only when no index is eligible,
/// and the early stop prefers the last candidate below `wrap_min` and
/// otherwise the first at or after it.
proof fn lemma_scan_props(
    s: Seq<char>,
    wrap_min: int,
    i: int,
    after: bool,
    prev: Option<char>,
    cand: Option<int>,
)
    requires
        0 <= i <= s.len(),
        i > 0 ==> prev == Option::Some(s[i - 1]),
        i == 0 ==> prev is None,
        after <==> exists|j: int| 0 <= j < i && is_content(s, j),
        cand matches Option::Some(q) ==> eligible_break(s, q) && q < i && (forall|k: int|
            q < k < i ==> !eligible_break(s, k)),
        cand is None ==> forall|k: int| 0 <= k < i ==> !eligible_break(s, k),
        cand matches Option::Some(q) ==> (q >= wrap_min ==> forall|k: int|
            0 <= k < q ==> !eligible_break(s, k)),
    ensures
        scan(s, wrap_min, i, after, prev, cand) matches Option::Some(p) ==> eligible_break(s, p),
        scan(s, wrap_min, i, after, prev, cand) is None ==> cand is None && (forall|k: int|
            i <= k < s.len() ==> !eligible_break(s, k)),
        scan(s, wrap_min, i, after, prev, cand) matches Option::Some(p) ==> (p < wrap_min
            ==> forall|k: int| p < k < s.len() && k < wrap_min ==> !eligible_break(s, k)),
        scan(s, wrap_min, i, after, prev, cand) matches Option::Some(p) ==> (p >= wrap_min
            ==> forall|k: int| 0 <= k < p ==> !eligible_break(s, k)),
    decreases s.len() - i,
{
    if i >= s.len() {
        // the scan returns `cand`; the invariants give every claim
    } else if i >= wrap_min && cand is Some {
        // early stop: the scan returns `cand`
    } else {
        let c = s[i];
        if c == ' ' && prev != Option::Some('\\') {
            let new_cand = if after {
                Option::Some(i)
            } else {
                cand
            };
            if after {
                assert(eligible_break(s, i));
            } else {
                assert(!eligible_break(s, i));
            }
            lemma_scan_props(s, wrap_min, i + 1, after, Option::Some(c), new_cand);
        } else {
            let new_after = if c != '%' {
                true
            } else {
                after
            };
            assert(!eligible_break(s, i));
            if c != '%' {
                assert(is_content(s, i));
            } else {
                assert(!is_content(s, i));
            }
            lemma_scan_props(s, wrap_min, i + 1, new_after, Option::Some(c), cand);
        }
    }
}

/// A chosen wrap point is an eligible break: an unescaped space with
/// content before it. In particular the split never falls on an
/// escaped space, and `None` comes back whenever no index is eligible.
pub proof fn lemma_wrap_point_eligible(s: Seq<char>, wrap_min: int)
    ensures
        wrap_point(s, wrap_min) matches Option::Some(p) ==> eligible_break(s, p) && 0 < p < s.len()
            && s[p] == ' ' && s[p - 1] != '\\',
        wrap_point(s, wrap_min) is None ==> forall|k: int|
            0 <= k < s.len() ==> !eligible_break(s, k),
{
    lemma_scan_props(s, wrap_min, 0, false, Option::None, Option::None);
    if wrap_point(s, wrap_min) is Some {
        let p = wrap_point(s, wrap_min)->0;
        assert(eligible_break(s, p));
        let j = choose|j: int| 0 <= j < p && is_content(s, j);
        assert(p > 0);
    }
}

/// A line with no unescaped space after its first content character
/// has no wrap point at all.
pub proof fn lemma_wrap_point_unbreakable(s: Seq<char>, wrap_min: int)
    requires
        forall|k: int| 0 <= k < s.len() ==> !eligible_break(s, k),
    ensures
        wrap_point(s, wrap_min) is None,
{
    lemma_scan_props(s, wrap_min, 0, false, Option::None, Option::None);
    if wrap_point(s, wrap_min) is Some {
        assert(eligible_break(s, wrap_point(s, wrap_min)->0));
    }
}

/// The nearest-to-minimum tie-break, exactly: some wrap point exists
/// iff some index is eligible; a point below `wrap_min` is the last
/// eligible index below it; a point at or above `wrap_min` is the
/// first eligible index of the whole line.
pub proof fn lemma_wrap_point_tie_break(s: Seq<char>, wrap_min: int)
    ensures
        (wrap_point(s, wrap_min) is Some) <==> exists|k: int|
            0 <= k < s.len() && eligible_break(s, k),
        wrap_point(s, wrap_min) matches Option::Some(p) ==> (p < wrap_min ==> forall|k: int|
            p < k < s.len() && k < wrap_min ==> !eligible_break(s, k)),
        wrap_point(s, wrap_min) matches Option::Some(p) ==> (p >= wrap_min ==> forall|k: int|
            0 <= k < p ==> !eligible_break(s, k)),
{
    lemma_scan_props(s, wrap_min, 0, false, Option::None, Option::None);
    if wrap_point(s, wrap_min) is Some {
        assert(eligible_break(s, wrap_point(s, wrap_min)->0));
    }
}

/// `Option<usize>` as the `Option<int>` that the scan works over.
pub open spec fn index_option(o: Option<usize>) -> Option<int> {
    match o {
        Option::Some(p) => Option::Some(p as int),
        Option::None => Option::None,
    }
}

/// Should this line be wrapped at all? False under `keep` and inside
/// verbatim or ignored regions; otherwise exactly when the line is
/// longer than the configured width.
pub fn needs_wrap(line: &str, state: &State, args: &Config) -> (r: bool)
    ensures
        r == (!args.keep && !state.verbatim && !state.ignore && line@.len() > args.wrap as nat),
        args.keep ==> !r,
        state.verbatim || state.ignore ==> !r,
        (!args.keep && !state.verbatim && !state.ignore) ==> (r <==> line@.len()
            > args.wrap as nat),
{
    !args.keep && !state.verbatim && !state.ignore && line.unicode_len() > args.wrap as usize
}

/// Find the character index at which to break a long line: the scan's
/// choice, which is always an unescaped space preceded by content, and
/// `None` when the line has no such space.
pub fn find_wrap_point(line: &str, args: &Config) -> (r: Option<usize>)
    ensures
        index_option(r) == wrap_point(line@, args.wrap_min as int),
        r matches Option::Some(p) ==> 0 < p < line@.len() && line@[p as int] == ' '
            && line@[p as int - 1] != '\\',
{
    let ghost wm: int = args.wrap_min as int;
    let n = line.unicode_len();
    let mut wp: Option<usize> = None;
    let mut after_char = false;
    let mut prev_char: Option<char> = None;
    let mut i: usize = 0;
    while i < n && !(i >= args.wrap_min as usize && wp.is_some())
        invariant
            0 <= i <= n,
            n == line@.len(),
            wm == args.wrap_min as int,
            i > 0 ==> prev_char == Option::Some(line@[i - 1]),
            i == 0 ==> prev_char is None,
            wp matches Option::Some(p) ==> p < i,
            scan(line@, wm, i as int, after_char, prev_char, index_option(wp)) == wrap_point(
                line@,
                wm,
            ),
        decreases n - i,
    {
        let c = line.get_char(i);
        let ghost prev0 = prev_char;
        let ghost wp0 = wp;
        let ghost after0 = after_char;
        if c == ' ' && !(matches!(prev_char, Some('\\'))) {
            if after_char {
                wp = Some(i);
            }
        } else if c != '%' {
            after_char = true;
        }
        prev_char = Some(c);
        proof {
            assert(scan(line@, wm, i as int, after0, prev0, index_option(wp0)) == scan(
                line@,
                wm,
                i as int + 1,
                after_char,
                prev_char,
                index_option(wp),
            ));
        }
        i = i + 1;
    }
    proof {
        lemma_wrap_point_eligible(line@, wm);
    }
    wp
}

/// Whether the continuation of a line split at `p` must be prefixed
/// with a comment marker: the break falls after the line's first
/// unescaped marker.
pub open spec fn tail_prefixed(s: Seq<char>, p: int) -> bool {
    match comment_index(s) {
        Option::Some(c) => p > c,
        Option::None => false,
    }
}

/// The first line of a split at `p`.
pub open spec fn wrap_head(s: Seq<char>, p: int) -> Seq<char> {
    s.subrange(0, p)
}

/// The continuation line of a split at `p`: the rest of the line, with
/// a comment marker prepended when the break falls inside a trailing
/// comment.
pub open spec fn wrap_tail(s: Seq<char>, p: int) -> Seq<char> {
    if tail_prefixed(s, p) {
        seq!['%'] + s.skip(p)
    } else {
        s.skip(p)
    }
}

/// Splitting is lossless: the head, followed by the tail with the
/// added comment marker (if any) stripped again, is exactly the
/// original line. No character is dropped or duplicated.
pub proof fn lemma_wrap_round_trip(s: Seq<char>, p: int)
    requires
        0 <= p <= s.len(),
    ensures
        wrap_head(s, p) + (if tail_prefixed(s, p) {
            wrap_tail(s, p).skip(1)
        } else {
            wrap_tail(s, p)
        }) == s,
{
    if tail_prefixed(s, p) {
        assert(wrap_tail(s, p).skip(1) =~= s.skip(p));
    }
    assert(wrap_head(s, p) + s.skip(p) =~= s);
}

/// Split a long line at its wrap point, or return `None` when none
/// exists. A trace record is appended when tracing is on; one warning
/// record is appended exactly when the point is missing or lies past
/// the configured width (the split still happens in the latter case).
/// The head is the line up to the point; the tail is the rest,
/// comment-prefixed exactly when the break falls inside a trailing
/// comment. The log keeps everything it already held.
pub fn apply_wrap(
    line: &str,
    state: &State,
    file: &str,
    args: &Config,
    logs: &mut Vec<Log>,
) -> (r: Option<(String, String)>)
    ensures
        ({
            let wp = wrap_point(line@, args.wrap_min as int);
            let warn = !(wp matches Option::Some(p) && p <= args.wrap as int);
            let appended = (if args.trace {
                1int
            } else {
                0int
            }) + (if warn {
                1int
            } else {
                0int
            });
            &&& final(logs)@.len() == old(logs)@.len() + appended
            &&& final(logs)@.subrange(0, old(logs)@.len() as int) == old(logs)@
            &&& args.trace ==> final(logs)@[old(logs)@.len() as int]@ == line_log_view(
                Level::Trace,
                file@,
                state.linum_new,
                state.linum_old,
                line@,
                "Wrapping long line."@,
            )
            &&& warn ==> final(logs)@.last()@ == line_log_view(
                Level::Warn,
                file@,
                state.linum_new,
                state.linum_old,
                line@,
                "Line cannot be wrapped."@,
            )
            &&& match r {
                Option::Some(pair) => {
                    &&& wp matches Option::Some(p)
                    &&& pair.0@ == wrap_head(line@, wp.unwrap())
                    &&& pair.1@ == wrap_tail(line@, wp.unwrap())
                },
                Option::None => wp is None,
            }
        }),
{
    let ghost pre = logs@;
    if args.trace {
        record_line_log(
            logs,
            Level::Trace,
            file,
            state.linum_new,
            state.linum_old,
            line,
            "Wrapping long line.",
        );
    }
    let wrap_point_found = find_wrap_point(line, args);
    let comment_idx = find_comment_index(line);

    let warn = match wrap_point_found {
        Some(p) => p > args.wrap as usize,
        None => true,
    };
    let ghost mid = logs@;
    if warn {
        record_line_log(
            logs,
            Level::Warn,
            file,
            state.linum_new,
            state.linum_old,
            line,
            "Line cannot be wrapped.",
        );
    }
    proof {
        assert(logs@.subrange(0, pre.len() as int) =~= pre);
        if args.trace {
            assert(logs@[pre.len() as int]@ == mid.last()@);
        }
    }

    match wrap_point_found {
        None => None,
        Some(p) => {
            let n = line.unicode_len();
            let head = line.substring_char(0, p).to_owned();
            let rest = line.substring_char(p, n);
            let prefix = match comment_idx {
                Some(c) => p > c,
                None => false,
            };
            let tail = if prefix {
                let mut t = String::from_str("%");
                t.append(rest);
                proof {
                    reveal_strlit("%");
                    assert(t@ =~= seq!['%'] + line@.skip(p as int));
                }
                t
            } else {
                rest.to_owned()
            };
            Some((head, tail))
        },
    }
}

} // verus!
