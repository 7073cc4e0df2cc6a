//! Conversion of NUL-terminated wide (UTF-16) buffers, as the OS facilities
//! fill them, into Rust strings.

use vstd::prelude::*;
use vstd::slice::{slice_index_get, slice_subrange};

verus! {

/// The index of the first NUL unit at or after `i` (or the length when no
/// NUL follows): the buffer's string content ends there.
pub open spec fn nul_prefix_end(units: Seq<u16>, i: int) -> int
    decreases units.len() - i,
{
    if i < units.len() && units[i] != 0 {
        nul_prefix_end(units, i + 1)
    } else {
        i
    }
}

/// What the lossy UTF-16 decoding of a unit sequence reads as. The decoding
/// is a function of the units alone; it is named, not spelled out.
pub uninterp spec fn utf16_lossy_of(units: Seq<u16>) -> Seq<char>;

/// Relies on alloc's `String::from_utf16_lossy`: decodes UTF-16, replacing
/// invalid data with the replacement character; the result is a function of
/// the code units alone.
#[verifier::external_body]
fn decode_utf16_lossy(units: &[u16]) -> (r: String)
    ensures
        r@ == utf16_lossy_of(units@),
{
    String::from_utf16_lossy(units)
}

fn scan_nul(units: &[u16], i: usize) -> (r: usize)
    requires
        i <= units@.len(),
    ensures
        r as int == nul_prefix_end(units@, i as int),
        i <= r <= units@.len(),
    decreases units@.len() - i,
{
    if i < units.len() {
        if *slice_index_get(units, i) != 0 {
            scan_nul(units, i + 1)
        } else {
            i
        }
    } else {
        i
    }
}

/// Converts a wide-character buffer to a string: the units up to the first
/// NUL (or the whole buffer when none occurs), decoded as UTF-16 with lossy
/// replacement.
pub fn wide_string_to_string(wide_str: &[u16]) -> (r: String)
    ensures
        r@ == utf16_lossy_of(wide_str@.subrange(0, nul_prefix_end(wide_str@, 0))),
{
    let n = scan_nul(wide_str, 0);
    let prefix = slice_subrange(wide_str, 0, n);
    decode_utf16_lossy(prefix)
}

} // verus!
