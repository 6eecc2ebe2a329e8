//! Line patterns of the git log/patch record format.
//!
//! A record starts on a line of the form `commit ` followed by exactly
//! forty hexadecimal digits.  A record is terminated by the next line that
//! either starts a new record or begins a patch section (`diff --git`).

use vstd::prelude::*;

verus! {

/// A hexadecimal digit, either case.
pub open spec fn is_hex_digit(c: char) -> bool {
    ('0' <= c && c <= '9') || ('a' <= c && c <= 'f') || ('A' <= c && c <= 'F')
}

/// The line opens a record: `commit ` followed by a 40-digit hex id.
pub open spec fn is_start_line(s: Seq<char>) -> bool {
    &&& s.len() >= 47
    &&& s[0] == 'c'
    &&& s[1] == 'o'
    &&& s[2] == 'm'
    &&& s[3] == 'm'
    &&& s[4] == 'i'
    &&& s[5] == 't'
    &&& s[6] == ' '
    &&& forall|i: int| 7 <= i < 47 ==> is_hex_digit(#[trigger] s[i])
}

/// The line opens a patch section: it begins with `diff --git`.
pub open spec fn is_diff_line(s: Seq<char>) -> bool {
    &&& s.len() >= 10
    &&& s[0] == 'd'
    &&& s[1] == 'i'
    &&& s[2] == 'f'
    &&& s[3] == 'f'
    &&& s[4] == ' '
    &&& s[5] == '-'
    &&& s[6] == '-'
    &&& s[7] == 'g'
    &&& s[8] == 'i'
    &&& s[9] == 't'
}

/// The line terminates the record that encloses the cursor: either a new
/// record's first line or a patch section opener.
pub open spec fn is_end_line(s: Seq<char>) -> bool {
    is_start_line(s) || is_diff_line(s)
}

fn hex_digit(c: char) -> (r: bool)
    ensures
        r == is_hex_digit(c),
{
    ('0' <= c && c <= '9') || ('a' <= c && c <= 'f') || ('A' <= c && c <= 'F')
}

/// Does the line open a record?
pub fn matches_start(line: &str) -> (r: bool)
    ensures
        r == is_start_line(line@),
{
    let n = line.unicode_len();
    if n < 47 {
        return false;
    }
    let prefix: [char; 7] = ['c', 'o', 'm', 'm', 'i', 't', ' '];
    let mut i: usize = 0;
    while i < 7
        invariant
            0 <= i <= 7,
            line@.len() >= 47,
            prefix@ =~= seq!['c', 'o', 'm', 'm', 'i', 't', ' '],
            forall|j: int| 0 <= j < i ==> line@[j] == prefix@[j],
        decreases 7 - i,
    {
        if line.get_char(i) != prefix[i] {
            return false;
        }
        i = i + 1;
    }
    let mut k: usize = 7;
    while k < 47
        invariant
            7 <= k <= 47,
            line@.len() >= 47,
            forall|j: int| 7 <= j < k ==> is_hex_digit(#[trigger] line@[j]),
        decreases 47 - k,
    {
        if !hex_digit(line.get_char(k)) {
            return false;
        }
        k = k + 1;
    }
    true
}

/// Does the line open a patch section?
pub fn matches_diff(line: &str) -> (r: bool)
    ensures
        r == is_diff_line(line@),
{
    let n = line.unicode_len();
    if n < 10 {
        return false;
    }
    let prefix: [char; 10] = ['d', 'i', 'f', 'f', ' ', '-', '-', 'g', 'i', 't'];
    let mut i: usize = 0;
    while i < 10
        invariant
            0 <= i <= 10,
            line@.len() >= 10,
            prefix@ =~= seq!['d', 'i', 'f', 'f', ' ', '-', '-', 'g', 'i', 't'],
            forall|j: int| 0 <= j < i ==> line@[j] == prefix@[j],
        decreases 10 - i,
    {
        if line.get_char(i) != prefix[i] {
            return false;
        }
        i = i + 1;
    }
    true
}

/// Does the line terminate the enclosing record?
pub fn matches_end(line: &str) -> (r: bool)
    ensures
        r == is_end_line(line@),
{
    matches_start(line) || matches_diff(line)
}

} // verus!
