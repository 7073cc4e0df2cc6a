//! Parsing of the interactive unlock confirmation: `y` or `yes`,
//! case-insensitively and ignoring surrounding blanks and line endings;
//! anything else cancels.

use vstd::prelude::*;
use vstd::string::StrSliceExecFns;

verus! {

/// The characters stripped from around a confirmation answer: the ASCII
/// blank, tab, and the line endings a console read leaves behind.
pub open spec fn is_blank(c: char) -> bool {
    c == ' ' || c == '\t' || c == '\r' || c == '\n'
}

/// The index of the first non-blank character at or after `i` (or the length
/// when everything from `i` on is blank).
pub open spec fn first_non_blank(s: Seq<char>, i: int) -> int
    decreases s.len() - i,
{
    if i < s.len() && is_blank(s[i]) {
        first_non_blank(s, i + 1)
    } else {
        i
    }
}

/// The end of the last non-blank character before `j`, never receding past
/// `lo`.
pub open spec fn last_non_blank_end(s: Seq<char>, lo: int, j: int) -> int
    decreases j - lo,
{
    if j > lo && is_blank(s[j - 1]) {
        last_non_blank_end(s, lo, j - 1)
    } else {
        j
    }
}

/// The answer with surrounding blanks and line endings removed.
pub open spec fn trimmed(s: Seq<char>) -> Seq<char> {
    let lo = first_non_blank(s, 0);
    let hi = last_non_blank_end(s, lo, s.len() as int);
    s.subrange(lo, hi)
}

/// A `y`, case-insensitively.
pub open spec fn is_y(c: char) -> bool {
    c == 'y' || c == 'Y'
}

/// An `e`, case-insensitively.
pub open spec fn is_e(c: char) -> bool {
    c == 'e' || c == 'E'
}

/// An `s`, case-insensitively.
pub open spec fn is_s(c: char) -> bool {
    c == 's' || c == 'S'
}

/// Whether the trimmed answer reads `y` or `yes`, case-insensitively.
pub open spec fn confirmation_spec(s: Seq<char>) -> bool {
    let t = trimmed(s);
    (t.len() == 1 && is_y(t[0])) || (t.len() == 3 && is_y(t[0]) && is_e(t[1]) && is_s(t[2]))
}

fn is_blank_char(c: char) -> (r: bool)
    ensures
        r == is_blank(c),
{
    c == ' ' || c == '\t' || c == '\r' || c == '\n'
}

fn scan_start(input: &str, i: usize, n: usize) -> (r: usize)
    requires
        i <= n,
        n == input@.len(),
    ensures
        r as int == first_non_blank(input@, i as int),
        i <= r <= n,
    decreases n - i,
{
    if i < n {
        if is_blank_char(input.get_char(i)) {
            scan_start(input, i + 1, n)
        } else {
            i
        }
    } else {
        i
    }
}

fn scan_end(input: &str, lo: usize, j: usize) -> (r: usize)
    requires
        lo <= j,
        j <= input@.len(),
    ensures
        r as int == last_non_blank_end(input@, lo as int, j as int),
        lo <= r <= j,
    decreases j,
{
    if j > lo {
        if is_blank_char(input.get_char(j - 1)) {
            scan_end(input, lo, j - 1)
        } else {
            j
        }
    } else {
        j
    }
}

/// Decides whether a console answer confirms the unlock: exactly when, after
/// stripping surrounding blanks and line endings, it reads `y` or `yes` in
/// any casing. Anything else — including an empty line — cancels.
pub fn confirmation_accepted(input: &str) -> (r: bool)
    ensures
        r == confirmation_spec(input@),
{
    let n = input.unicode_len();
    let start = scan_start(input, 0, n);
    let end = scan_end(input, start, n);
    let len = end - start;
    if len == 1 {
        let c = input.get_char(start);
        c == 'y' || c == 'Y'
    } else if len == 3 {
        let c0 = input.get_char(start);
        let c1 = input.get_char(start + 1);
        let c2 = input.get_char(start + 2);
        (c0 == 'y' || c0 == 'Y') && (c1 == 'e' || c1 == 'E') && (c2 == 's' || c2 == 'S')
    } else {
        false
    }
}

} // verus!
