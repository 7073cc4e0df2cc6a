use file_lock_checker::monitor::{monitor_step, monitor_tick, MonitorEvent};
use file_lock_checker::scripted::ScriptedFacility;
use file_lock_checker::types::{FileLockInfo, ProcessInfo, RawHolder, SystemQueryError};

fn record(pid: u32) -> ProcessInfo {
    ProcessInfo { pid, name: format!("p{}", pid), path: format!("C:\\p{}.exe", pid) }
}

fn snapshot(pids: &[u32]) -> FileLockInfo {
    FileLockInfo {
        file_path: "C:\\watched.txt".to_owned(),
        processes: pids.iter().map(|&pid| record(pid)).collect(),
    }
}

#[test]
fn growing_holder_set_emits_one_event_listing_both_pids() {
    // The retained previous set already holds pid 1234 from earlier polling.
    let mut last = vec![record(1234)];
    let first = monitor_step(&mut last, Ok(snapshot(&[1234])));
    assert!(first.is_none());
    let second = monitor_step(&mut last, Ok(snapshot(&[1234, 5678])));
    match second {
        Some(MonitorEvent::Transition(info)) => {
            let pids: Vec<u32> = info.processes.iter().map(|p| p.pid).collect();
            assert_eq!(pids, vec![1234, 5678]);
        },
        _ => panic!("expected a transition event for the second poll"),
    }
    let pids: Vec<u32> = last.iter().map(|p| p.pid).collect();
    assert_eq!(pids, vec![1234, 5678]);
}

#[test]
fn identical_holder_sets_emit_no_event() {
    let mut last = vec![record(1234)];
    assert!(monitor_step(&mut last, Ok(snapshot(&[1234]))).is_none());
    assert!(monitor_step(&mut last, Ok(snapshot(&[1234]))).is_none());
    assert_eq!(last.len(), 1);
    assert_eq!(last[0].pid, 1234);
}

#[test]
fn first_poll_from_empty_baseline_reports_the_holders() {
    let mut last: Vec<ProcessInfo> = Vec::new();
    let ev = monitor_step(&mut last, Ok(snapshot(&[1234])));
    assert!(matches!(ev, Some(MonitorEvent::Transition(_))));
    assert_eq!(last.len(), 1);
}

#[test]
fn unlock_transition_carries_an_empty_snapshot() {
    let mut last = vec![record(1234)];
    let ev = monitor_step(&mut last, Ok(snapshot(&[])));
    match ev {
        Some(MonitorEvent::Transition(info)) => assert!(info.processes.is_empty()),
        _ => panic!("expected an unlock transition"),
    }
    assert!(last.is_empty());
}

#[test]
fn failed_poll_is_reported_and_keeps_the_retained_set() {
    let mut last = vec![record(1234)];
    let ev = monitor_step(&mut last, Err(SystemQueryError::SessionStart(5)));
    match ev {
        Some(MonitorEvent::QueryFailed(e)) => {
            assert_eq!(e, SystemQueryError::SessionStart(5));
        },
        _ => panic!("expected the query failure to be reported"),
    }
    assert_eq!(last.len(), 1);
    assert_eq!(last[0].pid, 1234);
    // The next successful, unchanged poll still emits nothing.
    assert!(monitor_step(&mut last, Ok(snapshot(&[1234]))).is_none());
}

#[test]
fn two_ticks_over_a_changing_facility() {
    let mut facility = ScriptedFacility::new(
        vec![RawHolder { pid: 1234, name: "demo".to_owned() }],
        vec![(1234, "C:\\apps\\demo.exe".to_owned())],
    );
    let mut last: Vec<ProcessInfo> = Vec::new();
    let first = monitor_tick(&mut facility, "C:\\watched.txt", &mut last);
    assert!(matches!(first, Some(MonitorEvent::Transition(_))));
    let second = monitor_tick(&mut facility, "C:\\watched.txt", &mut last);
    assert!(second.is_none());
    facility.holders.push(RawHolder { pid: 5678, name: "other".to_owned() });
    let third = monitor_tick(&mut facility, "C:\\watched.txt", &mut last);
    match third {
        Some(MonitorEvent::Transition(info)) => {
            let pids: Vec<u32> = info.processes.iter().map(|p| p.pid).collect();
            assert_eq!(pids, vec![1234, 5678]);
        },
        _ => panic!("expected a transition after the holder set grew"),
    }
}
