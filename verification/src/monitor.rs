//! The monitor loop's core: feeding one poll result into the retained
//! previous holder set and deciding whether a transition event is due.
//!
//! The loop itself — fixed-interval scheduling, sleeping, printing — belongs
//! to the embedding program; the state update and the emission decision live
//! here. The retained set is loop-local state passed explicitly between
//! iterations: a failed poll is a skipped sample (reported, but never an
//! update), and an unchanged holder set emits nothing.

use vstd::prelude::*;

use crate::detect::{changed_spec, processes_changed};
use crate::facility::ResourceQuery;
use crate::inspect::check_file_locks;
use crate::types::{FileLockInfo, ProcessInfo, SystemQueryError};

verus! {

/// What one poll of the monitor loop asks the embedding program to report.
#[derive(Debug)]
pub enum MonitorEvent {
    /// The holder set changed; the event carries the fresh snapshot (an empty
    /// holder list means the file is now unlocked).
    Transition(FileLockInfo),
    /// The poll failed; the error goes to the caller's error channel and the
    /// retained previous set is kept as it was.
    QueryFailed(SystemQueryError),
}

/// An element-for-element copy of a holder list.
fn clone_processes(processes: &Vec<ProcessInfo>) -> (r: Vec<ProcessInfo>)
    ensures
        r@ == processes@,
{
    let mut r: Vec<ProcessInfo> = Vec::new();
    let mut i: usize = 0;
    while i < processes.len()
        invariant
            0 <= i <= processes@.len(),
            r@.len() == i,
            forall|j: int| 0 <= j < i ==> r@[j] == processes@[j],
        decreases processes@.len() - i,
    {
        r.push(processes[i].clone());
        i += 1;
    }
    proof {
        assert(r@ =~= processes@);
    }
    r
}

/// Feeds one poll result into the retained previous holder set.
///
/// Exactly one of three things happens, and the contract pins each: a failed
/// poll is reported and the retained set kept (a skipped sample, not a state
/// change); a successful poll whose holder set differs from the retained one
/// yields a transition event carrying the snapshot, and the retained set is
/// replaced by it; a successful poll with an unchanged holder set yields
/// nothing and leaves the retained set as it was.
pub fn monitor_step(
    last_processes: &mut Vec<ProcessInfo>,
    poll: Result<FileLockInfo, SystemQueryError>,
) -> (ev: Option<MonitorEvent>)
    ensures
        poll matches Err(e) ==> final(last_processes)@ == old(last_processes)@ && ev == Some(
            MonitorEvent::QueryFailed(e),
        ),
        poll matches Ok(info) ==> (if changed_spec(old(last_processes)@, info.processes@) {
            &&& final(last_processes)@ == info.processes@
            &&& ev == Some(MonitorEvent::Transition(info))
        } else {
            &&& final(last_processes)@ == old(last_processes)@
            &&& ev is None
        }),
{
    match poll {
        Ok(info) => {
            if processes_changed(last_processes, &info.processes) {
                let fresh = clone_processes(&info.processes);
                *last_processes = fresh;
                Some(MonitorEvent::Transition(info))
            } else {
                None
            }
        },
        Err(e) => Some(MonitorEvent::QueryFailed(e)),
    }
}

/// One full poll of the monitor loop: inspect the file, then apply
/// [`monitor_step`]. The session opened for the inspection is ended and all
/// handles are released before this returns; a transition event is emitted
/// exactly when the freshly observed holder set differs from the retained
/// one, and only then is the retained set replaced.
pub fn monitor_tick<Q: ResourceQuery>(
    facility: &mut Q,
    file_path: &str,
    last_processes: &mut Vec<ProcessInfo>,
) -> (ev: Option<MonitorEvent>)
    requires
        !old(facility).session_open(),
    ensures
        !final(facility).session_open(),
        final(facility).open_handles() == old(facility).open_handles(),
        ev is None ==> final(last_processes)@ == old(last_processes)@,
        ev matches Some(MonitorEvent::QueryFailed(_)) ==> final(last_processes)@ == old(
            last_processes,
        )@,
        ev matches Some(MonitorEvent::Transition(info)) ==> changed_spec(
            old(last_processes)@,
            info.processes@,
        ) && final(last_processes)@ == info.processes@ && info.file_path@ == file_path@,
{
    let poll = check_file_locks(facility, file_path);
    monitor_step(last_processes, poll)
}

} // verus!
