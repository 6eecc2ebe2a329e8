//! Locating the record that encloses a cursor position.
//!
//! Scanning runs backwards from the cursor to the nearest record start and
//! then forwards to the earliest terminator, so the cost is proportional to
//! the distance to the nearest boundary rather than to the cursor position.

use core::ops::Range;
use vstd::prelude::*;

use crate::patterns;
use crate::patterns::{is_end_line, is_start_line};
use crate::CpgError;

verus! {

/// The record format the finder scans for.
pub enum InputType {
    /// git log/patch output: records open with a commit header line.
    Git,
}

/// Index of the last record start strictly before `pos`, or `-1` if no
/// line in `[0, pos)` starts a record.
pub open spec fn last_start_before(lines: Seq<Seq<char>>, pos: int) -> int
    decreases pos,
{
    if pos <= 0 {
        -1
    } else if is_start_line(lines[pos - 1]) {
        pos - 1
    } else {
        last_start_before(lines, pos - 1)
    }
}

/// Index of the first record terminator in `[from, until)`, or `-1` if no
/// line of that range terminates a record.
pub open spec fn first_end_from(lines: Seq<Seq<char>>, from: int, until: int) -> int
    decreases until - from,
{
    if from >= until {
        -1
    } else if is_end_line(lines[from]) {
        from
    } else {
        first_end_from(lines, from + 1, until)
    }
}

/// The inclusive line range of the record enclosing position `pos`: from
/// the nearest record start before `pos` up to the line before the earliest
/// terminator after that start, or up to `pos - 1` while the record is
/// still unterminated.  `None` when no record start precedes `pos`.
pub open spec fn context_range(lines: Seq<Seq<char>>, pos: int) -> Option<(int, int)> {
    if pos > lines.len() {
        None
    } else {
        let s = last_start_before(lines, pos);
        if s < 0 {
            None
        } else {
            let e = first_end_from(lines, s + 1, pos);
            if e < 0 {
                Some((s, pos - 1))
            } else {
                Some((s, e - 1))
            }
        }
    }
}

/// A scan that found a start at `s` with no later start before `pos`
/// pins down `last_start_before`.
proof fn lemma_last_start_found(lines: Seq<Seq<char>>, pos: int, s: int)
    requires
        0 <= s < pos,
        is_start_line(lines[s]),
        forall|j: int| s < j < pos ==> !is_start_line(#[trigger] lines[j]),
    ensures
        last_start_before(lines, pos) == s,
    decreases pos,
{
    if pos - 1 > s {
        lemma_last_start_found(lines, pos - 1, s);
    }
}

/// A scan that found no start before `pos` pins down `last_start_before`.
proof fn lemma_last_start_missing(lines: Seq<Seq<char>>, pos: int)
    requires
        forall|j: int| 0 <= j < pos ==> !is_start_line(#[trigger] lines[j]),
    ensures
        last_start_before(lines, pos) == -1,
    decreases pos,
{
    if pos > 0 {
        lemma_last_start_missing(lines, pos - 1);
    }
}

/// A scan that found a terminator at `e` with no earlier one in the range
/// pins down `first_end_from`.
proof fn lemma_first_end_found(lines: Seq<Seq<char>>, from: int, until: int, e: int)
    requires
        from <= e < until,
        is_end_line(lines[e]),
        forall|j: int| from <= j < e ==> !is_end_line(#[trigger] lines[j]),
    ensures
        first_end_from(lines, from, until) == e,
    decreases e - from,
{
    if from < e {
        lemma_first_end_found(lines, from + 1, until, e);
    }
}

/// A scan that found no terminator in the range pins down `first_end_from`.
proof fn lemma_first_end_missing(lines: Seq<Seq<char>>, from: int, until: int)
    requires
        forall|j: int| from <= j < until ==> !is_end_line(#[trigger] lines[j]),
    ensures
        first_end_from(lines, from, until) == -1,
    decreases until - from,
{
    if from < until {
        lemma_first_end_missing(lines, from + 1, until);
    }
}

/// A record that has begun and is not yet terminated extends to the line
/// before the cursor: when a record starts at `h` and no line between `h`
/// and the cursor terminates it, the enclosing range is `[h, pos - 1]`.
pub proof fn lemma_unterminated_record_context(lines: Seq<Seq<char>>, h: int, pos: int)
    requires
        0 <= h < pos <= lines.len(),
        is_start_line(lines[h]),
        forall|j: int| h < j < pos ==> !is_end_line(#[trigger] lines[j]),
    ensures
        context_range(lines, pos) == Some((h, pos - 1)),
{
    assert forall|j: int| h < j < pos implies !is_start_line(#[trigger] lines[j]) by {
        assert(!is_end_line(lines[j]));
    }
    lemma_last_start_found(lines, pos, h);
    lemma_first_end_missing(lines, h + 1, pos);
}

/// With records starting at `h1` and next at `h2`, and nothing in between
/// terminating the first record, a cursor on the second header sees the
/// first record as its context: the range `[h1, h2 - 1]`, the terminating
/// header itself excluded.
pub proof fn lemma_context_between_records(lines: Seq<Seq<char>>, h1: int, h2: int)
    requires
        0 <= h1 < h2 < lines.len(),
        is_start_line(lines[h1]),
        is_start_line(lines[h2]),
        forall|j: int| h1 < j < h2 ==> !is_end_line(#[trigger] lines[j]),
    ensures
        context_range(lines, h2) == Some((h1, h2 - 1)),
{
    lemma_unterminated_record_context(lines, h1, h2);
}

/// Finds the boundaries of the record enclosing a cursor position.
pub struct ContextFinder {
    input_type: InputType,
}

impl ContextFinder {
    /// Builds a finder for the given record format.
    pub fn new(input_type: InputType) -> (r: Result<Self, CpgError>)
        ensures
            r.is_ok(),
    {
        match input_type {
            InputType::Git => Ok(ContextFinder { input_type: InputType::Git }),
        }
    }

    /// The lines of the record enclosing `position`: the materialized
    /// slice of the range that `find_range` locates.
    pub fn get_context<'a>(&self, all_lines: &'a [String], position: usize) -> (r: Option<
        &'a [String],
    >)
        ensures
            (match context_range(all_lines.deep_view(), position as int) {
                None => r.is_none(),
                Some((s, e)) => r.is_some() && r->Some_0.deep_view() == all_lines.deep_view()
                    .subrange(s, e + 1),
            }),
            position == 0 ==> r.is_none(),
    {
        let n = all_lines.len();
        let context_lines = self.find_range(all_lines, position);
        if let Some(lines) = context_lines {
            proof {
                lemma_context_range_in_bounds(all_lines.deep_view(), position as int);
                assert(all_lines.deep_view().len() == n as int);
            }
            let slice = vstd::slice::slice_subrange(all_lines, lines.start, lines.end + 1);
            assert(slice.deep_view() =~= all_lines.deep_view().subrange(
                lines.start as int,
                lines.end + 1 as int,
            ));
            Some(slice)
        } else {
            None
        }
    }

    /// The index range of the record enclosing `current_position`, per
    /// `context_range`.  A cursor at position `0` has no enclosing record.
    pub fn find_range(&self, lines: &[String], current_position: usize) -> (r: Option<
        Range<usize>,
    >)
        ensures
            (match r {
                None => context_range(lines.deep_view(), current_position as int).is_none(),
                Some(rng) => context_range(lines.deep_view(), current_position as int) == Some(
                    (rng.start as int, rng.end as int),
                ),
            }),
            current_position == 0 ==> r.is_none(),
    {
        if let Some(context_start_position) = self.start_line_num(lines, current_position) {
            if let Some(context_end_delta) = self.end_line_num(
                lines,
                current_position,
                context_start_position,
            ) {
                proof {
                    lemma_first_end_bounds(
                        lines.deep_view(),
                        context_start_position + 1,
                        current_position as int,
                    );
                }
                Some(Range {
                    start: context_start_position,
                    end: context_start_position + context_end_delta,
                })
            } else {
                Some(Range { start: context_start_position, end: current_position - 1 })
            }
        } else {
            None
        }
    }

    /// The index of the nearest record start strictly before
    /// `start_position`, scanning backwards; `None` when no line of
    /// `[0, start_position)` starts a record or the range is out of bounds.
    fn start_line_num(&self, lines: &[String], start_position: usize) -> (r: Option<usize>)
        ensures
            (match r {
                None => start_position > lines.deep_view().len() || last_start_before(
                    lines.deep_view(),
                    start_position as int,
                ) == -1,
                Some(s) => start_position <= lines.deep_view().len() && last_start_before(
                    lines.deep_view(),
                    start_position as int,
                ) == s as int,
            }),
    {
        if start_position > lines.len() {
            return None;
        }
        let ghost all = lines.deep_view();
        let mut i: usize = start_position;
        while i > 0
            invariant
                i <= start_position <= all.len(),
                all == lines.deep_view(),
                forall|j: int| i <= j < start_position ==> !is_start_line(#[trigger] all[j]),
            decreases i,
        {
            i = i - 1;
            let line: &String = &lines[i];
            assert(line@ == all[i as int]);
            if patterns::matches_start(line.as_str()) {
                proof {
                    lemma_last_start_found(all, start_position as int, i as int);
                }
                return Some(i);
            }
        }
        proof {
            lemma_last_start_missing(all, start_position as int);
        }
        None
    }

    /// The offset, counted from the line after the record start, of the
    /// earliest record terminator strictly before `start_position`; `None`
    /// when the record is still unterminated there or the scanned range is
    /// out of bounds.
    fn end_line_num(&self, lines: &[String], start_position: usize, start_line_num: usize) -> (r:
        Option<usize>)
        ensures
            (match r {
                None => start_position > lines.deep_view().len() || start_line_num
                    >= start_position || first_end_from(
                    lines.deep_view(),
                    start_line_num + 1,
                    start_position as int,
                ) == -1,
                Some(d) => start_position <= lines.deep_view().len() && start_line_num
                    < start_position && first_end_from(
                    lines.deep_view(),
                    start_line_num + 1,
                    start_position as int,
                ) == start_line_num + 1 + d,
            }),
    {
        if start_position > lines.len() || start_line_num >= start_position {
            return None;
        }
        let ghost all = lines.deep_view();
        let from: usize = start_line_num + 1;
        let mut i: usize = from;
        while i < start_position
            invariant
                from <= i <= start_position <= all.len(),
                from == start_line_num + 1,
                all == lines.deep_view(),
                forall|j: int| from <= j < i ==> !is_end_line(#[trigger] all[j]),
            decreases start_position - i,
        {
            let line: &String = &lines[i];
            assert(line@ == all[i as int]);
            if patterns::matches_end(line.as_str()) {
                proof {
                    lemma_first_end_found(all, from as int, start_position as int, i as int);
                }
                return Some(i - from);
            }
            i = i + 1;
        }
        proof {
            lemma_first_end_missing(all, from as int, start_position as int);
        }
        None
    }
}

/// A located context range lies within the buffer: its start is a valid
/// index and its end lies before `pos`.
proof fn lemma_context_range_in_bounds(lines: Seq<Seq<char>>, pos: int)
    requires
        context_range(lines, pos).is_some(),
    ensures
        ({
            let (s, e) = context_range(lines, pos)->Some_0;
            0 <= s <= e + 1 <= lines.len() && s < pos
        }),
{
    lemma_last_start_bounds(lines, pos);
    let s = last_start_before(lines, pos);
    lemma_first_end_bounds(lines, s + 1, pos);
}

/// `last_start_before` returns `-1` or an index in `[0, pos)`.
proof fn lemma_last_start_bounds(lines: Seq<Seq<char>>, pos: int)
    ensures
        last_start_before(lines, pos) == -1 || 0 <= last_start_before(lines, pos) < pos,
    decreases pos,
{
    if pos > 0 {
        lemma_last_start_bounds(lines, pos - 1);
    }
}

/// `first_end_from` returns `-1` or an index in `[from, until)`.
proof fn lemma_first_end_bounds(lines: Seq<Seq<char>>, from: int, until: int)
    ensures
        first_end_from(lines, from, until) == -1 || from <= first_end_from(lines, from, until)
            < until,
    decreases until - from,
{
    if from < until {
        lemma_first_end_bounds(lines, from + 1, until);
    }
}

} // verus!
