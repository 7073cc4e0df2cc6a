use file_lock_checker::detect::processes_changed;
use file_lock_checker::types::ProcessInfo;

fn record(pid: u32, name: &str) -> ProcessInfo {
    ProcessInfo { pid, name: name.to_owned(), path: format!("C:\\{}.exe", name) }
}

#[test]
fn a_snapshot_never_differs_from_itself() {
    let holders = vec![record(3, "c"), record(1, "a"), record(2, "b")];
    assert!(!processes_changed(&holders, &holders));
    let empty: Vec<ProcessInfo> = Vec::new();
    assert!(!processes_changed(&empty, &empty));
}

#[test]
fn order_of_holders_does_not_matter() {
    let one_way = vec![record(1, "a"), record(2, "b")];
    let other_way = vec![record(2, "b"), record(1, "a")];
    assert!(!processes_changed(&one_way, &other_way));
    assert!(!processes_changed(&other_way, &one_way));
}

#[test]
fn the_verdict_is_symmetric() {
    let cases = [
        (vec![record(1, "a")], vec![record(1, "a"), record(2, "b")]),
        (vec![record(1, "a")], vec![record(2, "b")]),
        (vec![], vec![record(1, "a")]),
        (vec![record(1, "a"), record(2, "b")], vec![record(2, "b"), record(1, "a")]),
    ];
    for (s, t) in cases.iter() {
        assert_eq!(processes_changed(s, t), processes_changed(t, s));
    }
}

#[test]
fn differing_counts_mean_change() {
    let one = vec![record(1, "a")];
    let two = vec![record(1, "a"), record(2, "b")];
    assert!(processes_changed(&one, &two));
}

#[test]
fn same_count_different_pids_mean_change() {
    let left = vec![record(1, "a"), record(2, "b")];
    let right = vec![record(1, "a"), record(3, "c")];
    assert!(processes_changed(&left, &right));
}

#[test]
fn duplicate_pids_collapse_for_the_set_comparison() {
    let doubled = vec![record(1, "a"), record(1, "a")];
    let pair = vec![record(1, "a"), record(2, "b")];
    assert!(processes_changed(&doubled, &pair));
    let doubled_again = vec![record(1, "x"), record(1, "y")];
    assert!(!processes_changed(&doubled, &doubled_again));
}

#[test]
fn names_and_paths_play_no_part() {
    let before = vec![record(1234, "editor")];
    let after = vec![record(1234, "imposter")];
    assert!(!processes_changed(&before, &after));
}
