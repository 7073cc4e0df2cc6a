//! Soft corroboration of an "unlocked" inspection result.
//!
//! An empty holder list is a weak signal: kernel-mode holders are invisible
//! to the resource-coordination facility. The caller-facing workflow
//! therefore backs an empty list with a direct exclusive-open probe of the
//! file and reports a distinct "likely locked by an undetectable holder"
//! condition when the probe also fails, instead of claiming the file free.

use vstd::prelude::*;
use vstd::string::StrSliceExecFns;

use crate::types::FileLockInfo;

verus! {

/// What one inspection plus the open probe say about the file.
#[derive(Debug, Clone, Copy, PartialEq, Eq, Structural)]
pub enum LockAssessment {
    /// At least one user-mode holder was reported.
    Held,
    /// No holder was reported and the direct open probe succeeded.
    Free,
    /// No holder was reported, yet the direct open probe failed: likely a
    /// kernel-mode or otherwise undetectable holder. A warning, never a hard
    /// failure.
    LikelyLockedUndetected,
}

/// Combines a snapshot with the outcome of the direct open probe. The
/// contract pins the verdict for every combination: holders reported means
/// held; no holders and a successful probe means free; no holders but a
/// failed probe means an undetectable holder is likely.
pub fn corroborate(info: &FileLockInfo, probe_succeeded: bool) -> (r: LockAssessment)
    ensures
        info.processes@.len() > 0 ==> r == LockAssessment::Held,
        info.processes@.len() == 0 && probe_succeeded ==> r == LockAssessment::Free,
        info.processes@.len() == 0 && !probe_succeeded ==> r
            == LockAssessment::LikelyLockedUndetected,
{
    if info.processes.len() > 0 {
        LockAssessment::Held
    } else if probe_succeeded {
        LockAssessment::Free
    } else {
        LockAssessment::LikelyLockedUndetected
    }
}

/// Whether the path names a kernel-driver image, i.e. ends in `.sys`. Such
/// files are routinely locked by kernel-mode holders the facility cannot
/// see, so an empty holder report on them deserves an extra note.
pub open spec fn sys_suffix(s: Seq<char>) -> bool {
    s.len() >= 4 && s[s.len() - 4] == '.' && s[s.len() - 3] == 's' && s[s.len() - 2] == 'y' && s[
        s.len() - 1] == 's'
}

/// Decides whether the path ends in `.sys`.
pub fn is_sys_path(file_path: &str) -> (r: bool)
    ensures
        r == sys_suffix(file_path@),
{
    let n = file_path.unicode_len();
    if n < 4 {
        return false;
    }
    let c0 = file_path.get_char(n - 4);
    let c1 = file_path.get_char(n - 3);
    let c2 = file_path.get_char(n - 2);
    let c3 = file_path.get_char(n - 1);
    c0 == '.' && c1 == 's' && c2 == 'y' && c3 == 's'
}

} // verus!
