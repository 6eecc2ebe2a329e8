//! Literal, case-insensitive, directional line search.
//!
//! The query is matched as a plain substring of each line, ASCII letters
//! compared without regard to case.  Search never wraps: scanning forward
//! stops at the end of the buffer, scanning backward at its beginning, and
//! a query that matches nowhere leaves the position unchanged.

use vstd::prelude::*;

use crate::error::Error;

verus! {

/// The direction a search scans in.
#[derive(Debug, PartialEq, Eq)]
pub enum SearchDirection {
    /// Scan positions strictly before the start position, descending.
    Backwards,
    /// Scan the start position and those after it, ascending.
    Forward,
}

/// An ASCII upper-case letter.
pub open spec fn is_ascii_upper(c: char) -> bool {
    65 <= c as u32 && c as u32 <= 90
}

/// The two characters are equal up to ASCII case: identical, or the same
/// letter once as upper and once as lower case.
pub open spec fn chars_eq_ci(a: char, b: char) -> bool {
    ||| a == b
    ||| (is_ascii_upper(a) && b as u32 == a as u32 + 32)
    ||| (is_ascii_upper(b) && a as u32 == b as u32 + 32)
}

/// `q` occurs in `line` at offset `i`, compared ASCII-case-insensitively.
pub open spec fn matches_at(line: Seq<char>, q: Seq<char>, i: int) -> bool {
    &&& 0 <= i
    &&& i + q.len() <= line.len()
    &&& forall|j: int| 0 <= j < q.len() ==> chars_eq_ci(line[i + j], #[trigger] q[j])
}

/// The line contains `q` as a substring, ASCII-case-insensitively.  An
/// empty query is contained in every line.
pub open spec fn line_contains(line: Seq<char>, q: Seq<char>) -> bool {
    exists|i: int| matches_at(line, q, i)
}

/// Index of the first line at or after `i` that contains `q`, or `-1` if
/// none does.
pub open spec fn forward_match(lines: Seq<Seq<char>>, q: Seq<char>, i: int) -> int
    decreases lines.len() - i,
{
    if i >= lines.len() {
        -1
    } else if line_contains(lines[i], q) {
        i
    } else {
        forward_match(lines, q, i + 1)
    }
}

/// Index of the first line at or before `i` that contains `q`, scanning
/// downwards, or `-1` if none does.
pub open spec fn backward_match(lines: Seq<Seq<char>>, q: Seq<char>, i: int) -> int
    decreases i + 1,
{
    if i < 0 {
        -1
    } else if line_contains(lines[i], q) {
        i
    } else {
        backward_match(lines, q, i - 1)
    }
}

/// Where a search from `position` lands: the first matching line in the
/// scanned range, or `position` itself when nothing there matches.
/// Forward scans `position` and up; backward scans strictly below it.
pub open spec fn search_result(
    lines: Seq<Seq<char>>,
    q: Seq<char>,
    position: int,
    direction: SearchDirection,
) -> int {
    let m = match direction {
        SearchDirection::Forward => forward_match(lines, q, position),
        SearchDirection::Backwards => backward_match(lines, q, position - 1),
    };
    if m < 0 {
        position
    } else {
        m
    }
}

/// A scan that found a containing line at `m` and none earlier in the
/// range pins down `forward_match`.
proof fn lemma_forward_found(lines: Seq<Seq<char>>, q: Seq<char>, p: int, m: int)
    requires
        p <= m < lines.len(),
        line_contains(lines[m], q),
        forall|j: int| p <= j < m ==> !line_contains(#[trigger] lines[j], q),
    ensures
        forward_match(lines, q, p) == m,
    decreases m - p,
{
    if p < m {
        lemma_forward_found(lines, q, p + 1, m);
    }
}

/// A scan that found no containing line at or after `p` pins down
/// `forward_match`.
proof fn lemma_forward_missing(lines: Seq<Seq<char>>, q: Seq<char>, p: int)
    requires
        forall|j: int| p <= j < lines.len() ==> !line_contains(#[trigger] lines[j], q),
    ensures
        forward_match(lines, q, p) == -1,
    decreases lines.len() - p,
{
    if p < lines.len() {
        lemma_forward_missing(lines, q, p + 1);
    }
}

/// A scan downward from `i` that found a containing line at `m` and none
/// in between pins down `backward_match`.
proof fn lemma_backward_found(lines: Seq<Seq<char>>, q: Seq<char>, i: int, m: int)
    requires
        0 <= m <= i < lines.len(),
        line_contains(lines[m], q),
        forall|j: int| m < j <= i ==> !line_contains(#[trigger] lines[j], q),
    ensures
        backward_match(lines, q, i) == m,
    decreases i - m,
{
    if m < i {
        lemma_backward_found(lines, q, i - 1, m);
    }
}

/// A scan that found no containing line at or below `i` pins down
/// `backward_match`.
proof fn lemma_backward_missing(lines: Seq<Seq<char>>, q: Seq<char>, i: int)
    requires
        i < lines.len(),
        forall|j: int| 0 <= j <= i ==> !line_contains(#[trigger] lines[j], q),
    ensures
        backward_match(lines, q, i) == -1,
    decreases i + 1,
{
    if i >= 0 {
        lemma_backward_missing(lines, q, i - 1);
    }
}

/// For a query contained in exactly one line `m`, forward search from any
/// position at or before `m` lands on `m`, and backward search from any
/// position after `m` lands on `m` again: the two directions are
/// inverses around a unique match.
pub proof fn lemma_search_inverse(lines: Seq<Seq<char>>, q: Seq<char>, m: int, p: int)
    requires
        0 <= m < lines.len(),
        line_contains(lines[m], q),
        forall|j: int| 0 <= j < lines.len() && j != m ==> !line_contains(#[trigger] lines[j], q),
        0 <= p <= lines.len(),
    ensures
        p <= m ==> search_result(lines, q, p, SearchDirection::Forward) == m,
        p > m ==> search_result(lines, q, p, SearchDirection::Backwards) == m,
{
    if p <= m {
        lemma_forward_found(lines, q, p, m);
    } else {
        lemma_backward_found(lines, q, p - 1, m);
    }
}

/// A query that matches nowhere in the scanned range leaves the position
/// unchanged.
pub proof fn lemma_search_no_match(
    lines: Seq<Seq<char>>,
    q: Seq<char>,
    p: int,
    direction: SearchDirection,
)
    requires
        0 <= p <= lines.len(),
        (match direction {
            SearchDirection::Forward => forall|j: int|
                p <= j < lines.len() ==> !line_contains(#[trigger] lines[j], q),
            SearchDirection::Backwards => forall|j: int|
                0 <= j < p ==> !line_contains(#[trigger] lines[j], q),
        }),
    ensures
        search_result(lines, q, p, direction) == p,
{
    match direction {
        SearchDirection::Forward => lemma_forward_missing(lines, q, p),
        SearchDirection::Backwards => {
            if p > 0 {
                lemma_backward_missing(lines, q, p - 1);
            }
        },
    }
}

fn char_eq_ci(a: char, b: char) -> (r: bool)
    ensures
        r == chars_eq_ci(a, b),
{
    if a == b {
        true
    } else {
        let au = a as u32;
        let bu = b as u32;
        (65 <= au && au <= 90 && bu == au + 32) || (65 <= bu && bu <= 90 && au == bu + 32)
    }
}

/// Does `q` occur in `line` at character offset `i`?
fn query_matches_at(line: &str, q: &str, i: usize, line_len: usize, q_len: usize) -> (r: bool)
    requires
        line_len == line@.len(),
        q_len == q@.len(),
        i + q_len <= line_len,
    ensures
        r == matches_at(line@, q@, i as int),
{
    let mut j: usize = 0;
    while j < q_len
        invariant
            0 <= j <= q_len,
            line_len == line@.len(),
            q_len == q@.len(),
            i + q_len <= line_len,
            forall|k: int| 0 <= k < j ==> chars_eq_ci(line@[i + k], #[trigger] q@[k]),
        decreases q_len - j,
    {
        if !char_eq_ci(line.get_char(i + j), q.get_char(j)) {
            return false;
        }
        j = j + 1;
    }
    true
}

/// Does the line contain the query as a substring, ASCII case ignored?
pub fn line_contains_query(line: &str, q: &str) -> (r: bool)
    ensures
        r == line_contains(line@, q@),
{
    let n = line.unicode_len();
    let m = q.unicode_len();
    if m > n {
        assert(forall|i: int| !matches_at(line@, q@, i));
        return false;
    }
    let mut i: usize = 0;
    while i <= n - m
        invariant
            0 <= i,
            m <= n,
            n == line@.len(),
            m == q@.len(),
            forall|k: int| 0 <= k < i ==> !matches_at(line@, q@, k),
        decreases n - i,
    {
        if query_matches_at(line, q, i, n, m) {
            return true;
        }
        i = i + 1;
    }
    assert forall|k: int| !matches_at(line@, q@, k) by {
        if matches_at(line@, q@, k) {
            assert(k + m <= n);
        }
    }
    false
}

/// The position of the next line matching `term` from `position` in the
/// given direction, per `search_result`; the position itself when nothing
/// in the scanned range matches.  Building the matcher cannot fail for a
/// literal query, so the result is always `Ok`.
pub fn search(term: &str, position: usize, all_lines: &[String], direction: &SearchDirection) -> (r:
    Result<usize, Error>)
    requires
        (match *direction {
            SearchDirection::Backwards => position <= all_lines@.len(),
            SearchDirection::Forward => true,
        }),
    ensures
        r.is_ok(),
        r->Ok_0 as int == search_result(
            all_lines.deep_view(),
            term@,
            position as int,
            *direction,
        ),
{
    let ghost all = all_lines.deep_view();
    let n = all_lines.len();
    match direction {
        SearchDirection::Forward => {
            let mut i: usize = position;
            while i < n
                invariant
                    position <= i,
                    n == all.len(),
                    all == all_lines.deep_view(),
                    *direction == SearchDirection::Forward,
                    forall|j: int|
                        position <= j < i ==> !line_contains(#[trigger] all[j], term@),
                decreases n - i,
            {
                let line: &String = &all_lines[i];
                assert(line@ == all[i as int]);
                if line_contains_query(line.as_str(), term) {
                    proof {
                        lemma_forward_found(all, term@, position as int, i as int);
                    }
                    return Ok(i);
                }
                i = i + 1;
            }
            proof {
                lemma_forward_missing(all, term@, position as int);
            }
            Ok(position)
        },
        SearchDirection::Backwards => {
            let mut i: usize = position;
            while i > 0
                invariant
                    i <= position <= n == all.len(),
                    all == all_lines.deep_view(),
                    *direction == SearchDirection::Backwards,
                    forall|j: int| i <= j < position ==> !line_contains(#[trigger] all[j], term@),
                decreases i,
            {
                i = i - 1;
                let line: &String = &all_lines[i];
                assert(line@ == all[i as int]);
                if line_contains_query(line.as_str(), term) {
                    proof {
                        lemma_backward_found(all, term@, position - 1, i as int);
                    }
                    return Ok(i);
                }
            }
            proof {
                if position > 0 {
                    lemma_backward_missing(all, term@, position - 1);
                }
            }
            Ok(position)
        },
    }
}

} // verus!
