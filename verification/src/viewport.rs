//! Viewport arithmetic: the visible slice and cursor movement.
//!
//! The cursor is the index of the first visible line.  Moving forward is
//! clamped so the last line never scrolls above the bottom of the
//! viewport; moving backward saturates at the top of the buffer.

use vstd::prelude::*;

use crate::error::Error;

verus! {

/// The largest cursor position forward movement may reach:
/// `total - height`, but never below zero.
pub open spec fn max_scroll(total: int, height: int) -> int {
    if total - height > 0 {
        total - height
    } else {
        0
    }
}

/// Where the cursor lands after advancing by `count`: the target position,
/// clamped to `max_scroll`.  A target beyond the integer domain is clamped
/// the same way.
pub open spec fn advanced_cursor(pos: int, count: int, total: int, height: int) -> int {
    if pos + count > max_scroll(total, height) {
        max_scroll(total, height)
    } else {
        pos + count
    }
}

/// Where the cursor lands after retreating by `count`: `pos - count`,
/// saturating at zero.
pub open spec fn retreated_cursor(pos: int, count: int) -> int {
    if pos - count > 0 {
        pos - count
    } else {
        0
    }
}

/// Cursor movement cannot escape its bounds: from any position within
/// `[0, max_scroll]`, advancing stays at or below `max_scroll` and
/// retreating stays at or above zero, so no sequence of moves leaves the
/// interval.
pub proof fn lemma_cursor_moves_stay_in_bounds(pos: int, count: int, total: int, height: int)
    requires
        0 <= pos <= max_scroll(total, height),
        0 <= count,
    ensures
        0 <= advanced_cursor(pos, count, total, height) <= max_scroll(total, height),
        0 <= retreated_cursor(pos, count) <= max_scroll(total, height),
{
}

/// Advances the cursor by `count`, clamped so that it never passes
/// `max_scroll(max_val, vertical_size)`.
pub fn increment(scroll: usize, count: usize, max_val: usize, vertical_size: u16) -> (r: usize)
    ensures
        r as int == advanced_cursor(
            scroll as int,
            count as int,
            max_val as int,
            vertical_size as int,
        ),
{
    let h = vertical_size as usize;
    let cap: usize = if max_val >= h {
        max_val - h
    } else {
        0
    };
    if scroll <= usize::MAX - count {
        let pos = scroll + count;
        if pos > cap {
            cap
        } else {
            pos
        }
    } else {
        cap
    }
}

/// Retreats the cursor by `count`, saturating at zero.
pub fn decrement(scroll: usize, count: usize) -> (r: usize)
    ensures
        r as int == retreated_cursor(scroll as int, count as int),
{
    if scroll >= count {
        scroll - count
    } else {
        0
    }
}

/// The visible slice of the buffer for a cursor at `position` and a
/// viewport of `vertical_size` rows: a full viewport of lines where the
/// buffer reaches past it, and otherwise the lines from the cursor up to,
/// but not including, the buffer's last line.  Fails only when the cursor
/// lies at or past the end of the buffer.
pub fn get_lines<'a>(log_lines: &'a [String], position: usize, vertical_size: u16) -> (r: Result<
    &'a [String],
    Error,
>)
    requires
        position + vertical_size as int <= usize::MAX,
    ensures
        r.is_ok() <==> position < log_lines@.len(),
        (match r {
            Ok(lines) => {
                &&& (log_lines@.len() > position + vertical_size as int ==> lines@ == log_lines@
                    .subrange(position as int, position + vertical_size as int) && lines@.len()
                    == vertical_size as int)
                &&& (log_lines@.len() <= position + vertical_size as int ==> lines@ == log_lines@
                    .subrange(position as int, log_lines@.len() - 1) && lines@.len() == log_lines@
                    .len() - position - 1)
            },
            Err(e) => e == Error::GetLines,
        }),
{
    let n = log_lines.len();
    let h = vertical_size as usize;
    if n > position + h {
        Ok(vstd::slice::slice_subrange(log_lines, position, position + h))
    } else if position < n {
        Ok(vstd::slice::slice_subrange(log_lines, position, n - 1))
    } else {
        Err(Error::GetLines)
    }
}

} // verus!
