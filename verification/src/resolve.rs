//! Identity resolution: from a numeric process identifier to a best-effort
//! display path.
//!
//! Resolution never fails: whenever no query-rights handle can be opened, the
//! path read fails, or it reports zero bytes, the result degrades to the
//! sentinel `"Unknown (PID: <pid>)"` — partial identity is still actionable.

use vstd::prelude::*;
use vstd::string::StringExecFns;

use crate::decimal::{dec_digits, lemma_dec_digits_nonempty, u32_to_decimal};
use crate::facility::ResourceQuery;

verus! {

/// The sentinel display path for a pid whose image path cannot be read.
pub open spec fn sentinel_spec(pid: u32) -> Seq<char> {
    "Unknown (PID: "@ + dec_digits(pid as int) + ")"@
}

/// The view of an optional fetched path.
pub open spec fn opt_chars(fetched: Option<String>) -> Option<Seq<char>> {
    match fetched {
        Some(p) => Some(p@),
        None => None,
    }
}

/// What identity resolution yields: the fetched image path when one was read
/// and is non-empty, else the sentinel for the pid.
pub open spec fn resolved_path_spec(pid: u32, fetched: Option<Seq<char>>) -> Seq<char> {
    match fetched {
        Some(p) => if p.len() > 0 {
            p
        } else {
            sentinel_spec(pid)
        },
        None => sentinel_spec(pid),
    }
}

/// Whether `path` is a possible resolution outcome for `pid`: either some
/// non-empty fetched image path, or the pid's own sentinel.
pub open spec fn resolution_outcome(pid: u32, path: Seq<char>) -> bool {
    exists|fetched: Option<Seq<char>>| path == resolved_path_spec(pid, fetched)
}

/// The sentinel is never empty.
pub proof fn lemma_sentinel_nonempty(pid: u32)
    ensures
        sentinel_spec(pid).len() > 0,
{
    lemma_dec_digits_nonempty(pid as int);
}

/// Law: identity resolution always yields a non-empty display path, whatever
/// the pid and whatever the OS read reported.
pub proof fn lemma_resolved_path_nonempty(pid: u32, fetched: Option<Seq<char>>)
    ensures
        resolved_path_spec(pid, fetched).len() > 0,
{
    lemma_sentinel_nonempty(pid);
}

/// Builds the sentinel `"Unknown (PID: <pid>)"`.
pub fn sentinel_path(pid: u32) -> (r: String)
    ensures
        r@ == sentinel_spec(pid),
{
    let mut s = "Unknown (PID: ".to_owned();
    let digits = u32_to_decimal(pid);
    s.append(digits.as_str());
    s.append(")");
    proof {
        assert(s@ =~= sentinel_spec(pid));
    }
    s
}

/// The pure half of resolution: decides what the fetched image path, if any,
/// resolves to.
pub fn resolved_path_from(pid: u32, fetched: Option<String>) -> (r: String)
    ensures
        r@ == resolved_path_spec(pid, opt_chars(fetched)),
        r@.len() > 0,
{
    proof {
        lemma_resolved_path_nonempty(pid, opt_chars(fetched));
    }
    match fetched {
        Some(p) => {
            if !p.as_str().is_empty() {
                p
            } else {
                sentinel_path(pid)
            }
        },
        None => sentinel_path(pid),
    }
}

/// Resolves a pid to a display path: opens a query-rights handle, reads the
/// image path, and releases the handle on every path. Never fails and never
/// returns an empty string; every handle it opens is closed again.
pub fn get_process_path<Q: ResourceQuery>(facility: &mut Q, pid: u32) -> (r: String)
    ensures
        r@.len() > 0,
        final(facility).session_open() == old(facility).session_open(),
        final(facility).open_handles() == old(facility).open_handles(),
        resolution_outcome(pid, r@),
{
    if facility.open_for_query(pid) {
        let fetched = facility.read_image_path();
        let ghost fetched_view = opt_chars(fetched);
        facility.close_handle();
        let r = resolved_path_from(pid, fetched);
        proof {
            assert(r@ == resolved_path_spec(pid, fetched_view));
        }
        r
    } else {
        let r = resolved_path_from(pid, None);
        proof {
            assert(r@ == resolved_path_spec(pid, None::<Seq<char>>));
        }
        r
    }
}

} // verus!
