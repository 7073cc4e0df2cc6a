use file_lock_checker::corroborate::{corroborate, LockAssessment};
use file_lock_checker::detect::processes_changed;
use file_lock_checker::facility::MORE_DATA_STATUS;
use file_lock_checker::inspect::{
    check_file_locks, classify_list_size, resolve_holders, EnumerationPlan,
};
use file_lock_checker::scripted::ScriptedFacility;
use file_lock_checker::terminate::{classify_termination, kill_process, kill_processes};
use file_lock_checker::types::{ProcessInfo, RawHolder, SystemQueryError, TerminateError};

fn holder(pid: u32, name: &str) -> RawHolder {
    RawHolder { pid, name: name.to_owned() }
}

fn image(pid: u32, path: &str) -> (u32, String) {
    (pid, path.to_owned())
}

#[test]
fn free_file_reports_no_holders_and_probe_confirms() {
    let mut facility = ScriptedFacility::new(vec![], vec![]);
    let info = check_file_locks(&mut facility, "C:\\temp\\free.txt").unwrap();
    assert_eq!(info.file_path, "C:\\temp\\free.txt");
    assert!(info.processes.is_empty());
    assert_eq!(corroborate(&info, true), LockAssessment::Free);
}

#[test]
fn locked_file_reports_resolved_holder() {
    let mut facility = ScriptedFacility::new(
        vec![holder(1234, "demo")],
        vec![image(1234, "C:\\apps\\demo.exe")],
    );
    let info = check_file_locks(&mut facility, "C:\\temp\\locked.txt").unwrap();
    assert_eq!(info.processes.len(), 1);
    assert_eq!(info.processes[0].pid, 1234);
    assert_eq!(info.processes[0].name, "demo");
    assert_eq!(info.processes[0].path, "C:\\apps\\demo.exe");
    assert_eq!(corroborate(&info, true), LockAssessment::Held);
}

#[test]
fn unresolvable_holder_gets_sentinel_path() {
    let mut facility = ScriptedFacility::new(vec![holder(77, "ghost")], vec![]);
    let info = check_file_locks(&mut facility, "C:\\temp\\locked.txt").unwrap();
    assert_eq!(info.processes.len(), 1);
    assert_eq!(info.processes[0].path, "Unknown (PID: 77)");
}

#[test]
fn empty_image_path_falls_back_to_sentinel() {
    let mut facility = ScriptedFacility::new(vec![holder(9, "blank")], vec![image(9, "")]);
    let info = check_file_locks(&mut facility, "C:\\x").unwrap();
    assert_eq!(info.processes[0].path, "Unknown (PID: 9)");
}

#[test]
fn unopenable_holder_gets_sentinel_path() {
    let mut facility = ScriptedFacility::new(
        vec![holder(41, "guarded")],
        vec![image(41, "C:\\apps\\guarded.exe")],
    );
    facility.unopenable_pids = vec![41];
    let info = check_file_locks(&mut facility, "C:\\x").unwrap();
    assert_eq!(info.processes[0].path, "Unknown (PID: 41)");
}

#[test]
fn inspect_twice_yields_identical_pid_sets() {
    let mut facility = ScriptedFacility::new(
        vec![holder(1, "a"), holder(2, "b")],
        vec![image(1, "C:\\a.exe"), image(2, "C:\\b.exe")],
    );
    let first = check_file_locks(&mut facility, "C:\\f").unwrap();
    let second = check_file_locks(&mut facility, "C:\\f").unwrap();
    assert!(!processes_changed(&first.processes, &second.processes));
}

#[test]
fn session_start_failure_surfaces_code() {
    let mut facility = ScriptedFacility::new(vec![holder(1, "a")], vec![]);
    facility.session_fail_code = 5;
    let err = check_file_locks(&mut facility, "C:\\f").unwrap_err();
    assert_eq!(err, SystemQueryError::SessionStart(5));
    assert!(!facility.session_active);
}

#[test]
fn registration_failure_still_ends_session() {
    let mut facility = ScriptedFacility::new(vec![holder(1, "a")], vec![]);
    facility.registration_fail_code = 6;
    let err = check_file_locks(&mut facility, "C:\\f").unwrap_err();
    assert_eq!(err, SystemQueryError::Registration(6));
    assert!(!facility.session_active);
}

#[test]
fn enumeration_failure_still_ends_session() {
    let mut facility = ScriptedFacility::new(vec![holder(1, "a")], vec![]);
    facility.enumeration_fail_code = 7;
    let err = check_file_locks(&mut facility, "C:\\f").unwrap_err();
    assert_eq!(err, SystemQueryError::Enumeration(7));
    assert!(!facility.session_active);
}

#[test]
fn inspection_releases_every_handle_and_the_session() {
    let mut facility = ScriptedFacility::new(
        vec![holder(1, "a"), holder(2, "b"), holder(3, "c")],
        vec![image(2, "C:\\b.exe")],
    );
    let info = check_file_locks(&mut facility, "C:\\f").unwrap();
    assert_eq!(info.processes.len(), 3);
    assert!(!facility.session_active);
    assert!(facility.handle_pids.is_empty());
}

#[test]
fn sizing_phase_classification() {
    assert_eq!(classify_list_size(MORE_DATA_STATUS, 5), EnumerationPlan::Fetch(5));
    assert_eq!(classify_list_size(MORE_DATA_STATUS, 1), EnumerationPlan::Fetch(1));
    assert_eq!(classify_list_size(0, 0), EnumerationPlan::NoHolders);
    assert_eq!(classify_list_size(MORE_DATA_STATUS, 0), EnumerationPlan::NoHolders);
    assert_eq!(classify_list_size(5, 0), EnumerationPlan::Failed(5));
    assert_eq!(classify_list_size(160, 3), EnumerationPlan::Failed(160));
}

#[test]
fn resolution_carries_every_entry_over() {
    let mut facility = ScriptedFacility::new(vec![], vec![image(2, "C:\\apps\\b.exe")]);
    let raw = vec![holder(1, "a"), holder(2, "b"), holder(3, "c")];
    let records = resolve_holders(&mut facility, &raw);
    assert_eq!(records.len(), 3);
    assert_eq!(records[0].pid, 1);
    assert_eq!(records[0].name, "a");
    assert_eq!(records[0].path, "Unknown (PID: 1)");
    assert_eq!(records[1].pid, 2);
    assert_eq!(records[1].name, "b");
    assert_eq!(records[1].path, "C:\\apps\\b.exe");
    assert_eq!(records[2].pid, 3);
    assert_eq!(records[2].name, "c");
    assert_eq!(records[2].path, "Unknown (PID: 3)");
    assert!(facility.handle_pids.is_empty());
}

#[test]
fn termination_outcome_classification() {
    assert_eq!(classify_termination(false, false), Err(TerminateError::OpenFailed));
    assert_eq!(classify_termination(false, true), Err(TerminateError::OpenFailed));
    assert_eq!(classify_termination(true, true), Ok(()));
    assert_eq!(classify_termination(true, false), Err(TerminateError::SignalFailed));
}

fn record(pid: u32) -> ProcessInfo {
    ProcessInfo { pid, name: format!("p{}", pid), path: format!("C:\\p{}.exe", pid) }
}

#[test]
fn termination_batch_isolates_one_failure() {
    let mut facility = ScriptedFacility::new(vec![], vec![]);
    facility.unopenable_pids = vec![20];
    let batch = vec![record(10), record(20), record(30)];
    let outcomes = kill_processes(&mut facility, &batch);
    assert_eq!(outcomes.len(), 3);
    assert_eq!(outcomes[0].0.pid, 10);
    assert_eq!(outcomes[1].0.pid, 20);
    assert_eq!(outcomes[2].0.pid, 30);
    assert_eq!(outcomes[0].1, Ok(()));
    assert_eq!(outcomes[1].1, Err(TerminateError::OpenFailed));
    assert_eq!(outcomes[2].1, Ok(()));
    let failures = outcomes.iter().filter(|o| o.1.is_err()).count();
    assert_eq!(failures, 1);
    assert!(facility.handle_pids.is_empty());
}

#[test]
fn terminating_a_vanished_pid_reports_open_failed() {
    let mut facility = ScriptedFacility::new(vec![], vec![]);
    facility.unopenable_pids = vec![4242];
    let outcome = kill_process(&mut facility, 4242);
    assert_eq!(outcome, Err(TerminateError::OpenFailed));
}

#[test]
fn rejected_termination_reports_signal_failed() {
    let mut facility = ScriptedFacility::new(vec![], vec![]);
    facility.unkillable_pids = vec![77];
    let outcome = kill_process(&mut facility, 77);
    assert_eq!(outcome, Err(TerminateError::SignalFailed));
    assert!(facility.handle_pids.is_empty());
}
