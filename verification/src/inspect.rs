//! The lock inspector: one transient session with the resource-coordination
//! facility, the size-then-fetch holder enumeration, and per-holder identity
//! resolution.

use vstd::prelude::*;

use crate::facility::{ResourceQuery, MORE_DATA_STATUS};
use crate::resolve::{get_process_path, resolution_outcome};
use crate::types::{FileLockInfo, ProcessInfo, RawHolder, SystemQueryError};

verus! {

/// What the sizing phase of the enumeration dictates: fetch that many
/// entries, report no holders, or surface the failure.
#[derive(Debug, Clone, Copy, PartialEq, Eq, Structural)]
pub enum EnumerationPlan {
    /// Holder entries exist; reissue the fetch with a buffer for this many.
    Fetch(u32),
    /// The facility reported no holder entries.
    NoHolders,
    /// The sizing call failed with this status code.
    Failed(u32),
}

/// Decides what the sizing call's answer means. The "buffer too small"
/// status with a positive declared count is the expected common case and
/// dictates the fetch; a success status (or a declared count of zero) means
/// no holders; any other status is an enumeration failure.
pub fn classify_list_size(status: u32, needed: u32) -> (r: EnumerationPlan)
    ensures
        status == MORE_DATA_STATUS && needed > 0 ==> r == EnumerationPlan::Fetch(needed),
        status == 0 || (status == MORE_DATA_STATUS && needed == 0) ==> r
            == EnumerationPlan::NoHolders,
        status != 0 && status != MORE_DATA_STATUS ==> r == EnumerationPlan::Failed(status),
{
    if status == MORE_DATA_STATUS && needed > 0 {
        EnumerationPlan::Fetch(needed)
    } else if status == 0 || status == MORE_DATA_STATUS {
        EnumerationPlan::NoHolders
    } else {
        EnumerationPlan::Failed(status)
    }
}

/// Resolves every fetched holder entry to a full record: exactly one record
/// per entry, in the facility's order, with pid and name carried over
/// unchanged and the image path resolved for that pid — no entry dropped,
/// none invented. Every handle opened for resolution is released again.
pub fn resolve_holders<Q: ResourceQuery>(facility: &mut Q, raw: &Vec<RawHolder>) -> (r: Vec<
    ProcessInfo,
>)
    ensures
        final(facility).session_open() == old(facility).session_open(),
        final(facility).open_handles() == old(facility).open_handles(),
        r@.len() == raw@.len(),
        forall|i: int| 0 <= i < raw@.len() ==> (#[trigger] r@[i]).pid == raw@[i].pid,
        forall|i: int| 0 <= i < raw@.len() ==> (#[trigger] r@[i]).name@ == raw@[i].name@,
        forall|i: int| 0 <= i < raw@.len() ==> (#[trigger] r@[i]).path@.len() > 0,
        forall|i: int|
            0 <= i < raw@.len() ==> resolution_outcome((#[trigger] r@[i]).pid, r@[i].path@),
{
    let mut records: Vec<ProcessInfo> = Vec::new();
    let mut i: usize = 0;
    while i < raw.len()
        invariant
            0 <= i <= raw@.len(),
            records@.len() == i,
            facility.session_open() == old(facility).session_open(),
            facility.open_handles() == old(facility).open_handles(),
            forall|j: int| 0 <= j < i ==> (#[trigger] records@[j]).pid == raw@[j].pid,
            forall|j: int| 0 <= j < i ==> (#[trigger] records@[j]).name@ == raw@[j].name@,
            forall|j: int| 0 <= j < i ==> (#[trigger] records@[j]).path@.len() > 0,
            forall|j: int|
                0 <= j < i ==> resolution_outcome((#[trigger] records@[j]).pid, records@[j].path@),
        decreases raw@.len() - i,
    {
        let pid = raw[i].pid;
        let name = raw[i].name.clone();
        let path = get_process_path(facility, pid);
        records.push(ProcessInfo { pid, name, path });
        i += 1;
    }
    records
}

/// Inspects which processes currently hold an open handle on `file_path`.
///
/// Opens a session, registers the file, runs the two-phase size-then-fetch
/// enumeration as [`classify_list_size`] dictates, and resolves the fetched
/// entries through [`resolve_holders`], whose contract pins the
/// entry-for-entry correspondence of the returned records. The session is
/// ended before returning on every path, success or failure, and every
/// process handle opened along the way is released; both are stated in the
/// contract. Facility failures surface as [`SystemQueryError`] with the raw
/// OS status code; an empty holder list in a successful snapshot is a weak
/// signal only (see `corroborate`).
pub fn check_file_locks<Q: ResourceQuery>(facility: &mut Q, file_path: &str) -> (r: Result<
    FileLockInfo,
    SystemQueryError,
>)
    requires
        !old(facility).session_open(),
    ensures
        !final(facility).session_open(),
        final(facility).open_handles() == old(facility).open_handles(),
        r matches Ok(info) ==> {
            &&& info.file_path@ == file_path@
            &&& forall|i: int|
                0 <= i < info.processes@.len() ==> (#[trigger] info.processes@[i]).path@.len() > 0
            &&& forall|i: int|
                0 <= i < info.processes@.len() ==> resolution_outcome(
                    (#[trigger] info.processes@[i]).pid,
                    info.processes@[i].path@,
                )
        },
{
    if let Err(code) = facility.start_session() {
        return Err(SystemQueryError::SessionStart(code));
    }
    if let Err(code) = facility.register_file(file_path) {
        facility.end_session();
        return Err(SystemQueryError::Registration(code));
    }
    let (status, needed) = facility.query_list_size();
    match classify_list_size(status, needed) {
        EnumerationPlan::Fetch(capacity) => {
            match facility.fetch_holders(capacity) {
                Ok(raw) => {
                    let processes = resolve_holders(facility, &raw);
                    facility.end_session();
                    Ok(FileLockInfo { file_path: file_path.to_owned(), processes })
                },
                Err(code) => {
                    facility.end_session();
                    Err(SystemQueryError::Enumeration(code))
                },
            }
        },
        EnumerationPlan::NoHolders => {
            facility.end_session();
            Ok(FileLockInfo { file_path: file_path.to_owned(), processes: Vec::new() })
        },
        EnumerationPlan::Failed(code) => {
            facility.end_session();
            Err(SystemQueryError::Enumeration(code))
        },
    }
}

} // verus!
