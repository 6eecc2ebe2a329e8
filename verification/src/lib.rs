//! Interactive pager core for record-delimited text streams.
//!
//! The library holds the verified logic of the pager: locating the record
//! that encloses a cursor, searching the line buffer, sizing the viewport,
//! batching freshly read input lines, and the interaction state machine.
//! Terminal handling, threads and raw input live outside the library.

use vstd::prelude::*;

pub mod context_finder;
pub mod controller;
pub mod decode;
pub mod error;
pub mod ingest;
pub mod patterns;
pub mod search;
pub mod viewport;

use crate::context_finder::{context_range, ContextFinder, InputType};
use crate::decode::{decode_lossy, lossy_decode_of};

verus! {

/// Errors surfaced by the library's entry points.
#[derive(Debug)]
pub enum CpgError {
    /// An input/output failure reported by the surrounding program.
    IoErr,
}

/// The boundaries of the record enclosing `pos` in the given lines, as an
/// inclusive index pair, or `None` when no record start precedes `pos`.
pub fn parse_git_lines(lines: &[&str], pos: usize) -> (r: Result<
    Option<(usize, usize)>,
    CpgError,
>)
    ensures
        r.is_ok(),
        (match r->Ok_0 {
            None => context_range(lines.deep_view(), pos as int).is_none(),
            Some((s, e)) => context_range(lines.deep_view(), pos as int) == Some(
                (s as int, e as int),
            ),
        }),
        pos == 0 ==> r->Ok_0.is_none(),
{
    let ghost all = lines.deep_view();
    let mut owned: Vec<String> = Vec::new();
    let n = lines.len();
    let mut i: usize = 0;
    while i < n
        invariant
            0 <= i <= n == all.len(),
            all == lines.deep_view(),
            owned@.len() == i,
            forall|j: int| 0 <= j < i ==> (#[trigger] owned@[j])@ == all[j],
        decreases n - i,
    {
        let line: &str = lines[i];
        assert(line@ == all[i as int]);
        owned.push(line.to_owned());
        i = i + 1;
    }
    assert(owned.deep_view() =~= all);
    let finder = match ContextFinder::new(InputType::Git) {
        Ok(f) => f,
        Err(e) => { return Err(e) },
    };
    let slice: &[String] = owned.as_slice();
    assert(slice.deep_view() =~= all);
    match finder.find_range(slice, pos) {
        Some(rng) => Ok(Some((rng.start, rng.end))),
        None => Ok(None),
    }
}

/// Decodes a fully read input as text, replacing invalid byte sequences;
/// valid UTF-8 comes through unchanged.
pub fn read_input(input: &[u8]) -> (r: Result<String, CpgError>)
    ensures
        r.is_ok(),
        r->Ok_0@ == lossy_decode_of(input@),
        vstd::utf8::valid_utf8(input@) ==> r->Ok_0@ == vstd::utf8::decode_utf8(input@),
{
    Ok(decode_lossy(input))
}

} // verus!
