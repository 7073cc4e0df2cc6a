//! The process terminator: best-effort forceful termination of a holder set,
//! one attempt per process, with per-process outcomes and strict failure
//! isolation.

use vstd::prelude::*;

use crate::facility::ResourceQuery;
use crate::types::{ProcessInfo, TerminateError};

verus! {

/// The terminator's decision mapping, pinned for each pair of call results:
/// a refused terminate-rights open is `OpenFailed` (no termination request
/// was made); an opened handle yields `Ok` exactly when the OS accepted the
/// termination request, else `SignalFailed`.
pub fn classify_termination(opened: bool, signalled: bool) -> (r: Result<(), TerminateError>)
    ensures
        !opened ==> r == Err::<(), TerminateError>(TerminateError::OpenFailed),
        opened && signalled ==> r == Ok::<(), TerminateError>(()),
        opened && !signalled ==> r == Err::<(), TerminateError>(TerminateError::SignalFailed),
{
    if !opened {
        Err(TerminateError::OpenFailed)
    } else if signalled {
        Ok(())
    } else {
        Err(TerminateError::SignalFailed)
    }
}

/// Tries to forcefully end the one process: opens a terminate-rights handle,
/// requests termination once if and only if the open succeeded, releases the
/// handle, and maps the two call results through [`classify_termination`] —
/// the contract there pins which outcome each combination yields. No handle
/// stays held; a single attempt; no retry.
pub fn kill_process<Q: ResourceQuery>(facility: &mut Q, pid: u32) -> (r: Result<
    (),
    TerminateError,
>)
    ensures
        final(facility).session_open() == old(facility).session_open(),
        final(facility).open_handles() == old(facility).open_handles(),
{
    let opened = facility.open_for_terminate(pid);
    let signalled = if opened {
        let accepted = facility.signal_terminate();
        facility.close_handle();
        accepted
    } else {
        false
    };
    classify_termination(opened, signalled)
}

/// Tries to terminate every holder in the batch independently and collects
/// one outcome per holder, in order. One failure never stops the rest: the
/// contract pins an outcome for exactly each input record, and no process
/// handle stays held afterwards.
pub fn kill_processes<Q: ResourceQuery>(facility: &mut Q, processes: &Vec<ProcessInfo>) -> (outcomes:
    Vec<(ProcessInfo, Result<(), TerminateError>)>)
    ensures
        outcomes@.len() == processes@.len(),
        forall|i: int| 0 <= i < processes@.len() ==> (#[trigger] outcomes@[i]).0 == processes@[i],
        final(facility).session_open() == old(facility).session_open(),
        final(facility).open_handles() == old(facility).open_handles(),
{
    let mut outcomes: Vec<(ProcessInfo, Result<(), TerminateError>)> = Vec::new();
    let mut i: usize = 0;
    while i < processes.len()
        invariant
            0 <= i <= processes@.len(),
            outcomes@.len() == i,
            forall|j: int| 0 <= j < i ==> (#[trigger] outcomes@[j]).0 == processes@[j],
            facility.session_open() == old(facility).session_open(),
            facility.open_handles() == old(facility).open_handles(),
        decreases processes@.len() - i,
    {
        let record = processes[i].clone();
        let outcome = kill_process(facility, record.pid);
        outcomes.push((record, outcome));
        i += 1;
    }
    outcomes
}

} // verus!
