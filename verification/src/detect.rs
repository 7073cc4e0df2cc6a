//! Change detection between two successive holder snapshots.
//!
//! Two snapshots are considered equal exactly when their pid sets are equal:
//! the comparison is order-independent, duplicates collapse, and the
//! best-effort `name`/`path` fields play no part (a pid that persists across
//! samples is assumed to keep its identity; pid reuse between polls is a
//! known, accepted limitation).

use vstd::prelude::*;

use crate::types::ProcessInfo;

verus! {

/// The set of pids occurring in a holder sequence (order-independent,
/// duplicates collapsed).
pub open spec fn pid_set(holders: Seq<ProcessInfo>) -> Set<u32> {
    Set::new(|pid: u32| exists|i: int| 0 <= i < holders.len() && holders[i].pid == pid)
}

/// Whether two successive holder snapshots differ in a way worth reporting:
/// differing counts, or otherwise differing pid sets.
pub open spec fn changed_spec(previous: Seq<ProcessInfo>, current: Seq<ProcessInfo>) -> bool {
    previous.len() != current.len() || pid_set(previous) != pid_set(current)
}

/// Whether some holder in the sequence has the given pid.
fn holders_contain_pid(holders: &Vec<ProcessInfo>, pid: u32) -> (r: bool)
    ensures
        r == pid_set(holders@).contains(pid),
{
    let mut i: usize = 0;
    while i < holders.len()
        invariant
            0 <= i <= holders@.len(),
            forall|j: int| 0 <= j < i ==> (#[trigger] holders@[j]).pid != pid,
        decreases holders@.len() - i,
    {
        if holders[i].pid == pid {
            return true;
        }
        i += 1;
    }
    false
}

/// Decides whether the holder set changed between two successive samples.
///
/// Compares cardinality first (cheap short-circuit), then the pid sets,
/// order-independently. Returns exactly `changed_spec` of the two sequences.
pub fn processes_changed(old_processes: &Vec<ProcessInfo>, new_processes: &Vec<ProcessInfo>) -> (r:
    bool)
    ensures
        r == changed_spec(old_processes@, new_processes@),
{
    if old_processes.len() != new_processes.len() {
        return true;
    }
    let mut i: usize = 0;
    while i < old_processes.len()
        invariant
            0 <= i <= old_processes@.len(),
            forall|j: int| 0 <= j < i ==> pid_set(new_processes@).contains(
                (#[trigger] old_processes@[j]).pid,
            ),
        decreases old_processes@.len() - i,
    {
        if !holders_contain_pid(new_processes, old_processes[i].pid) {
            proof {
                assert(pid_set(old_processes@).contains(old_processes@[i as int].pid));
            }
            return true;
        }
        i += 1;
    }
    let mut k: usize = 0;
    while k < new_processes.len()
        invariant
            0 <= k <= new_processes@.len(),
            forall|j: int| 0 <= j < k ==> pid_set(old_processes@).contains(
                (#[trigger] new_processes@[j]).pid,
            ),
        decreases new_processes@.len() - k,
    {
        if !holders_contain_pid(old_processes, new_processes[k].pid) {
            proof {
                assert(pid_set(new_processes@).contains(new_processes@[k as int].pid));
            }
            return true;
        }
        k += 1;
    }
    proof {
        assert forall|p: u32| pid_set(old_processes@).contains(p) implies pid_set(
            new_processes@,
        ).contains(p) by {
            let w = choose|w: int| 0 <= w < old_processes@.len() && old_processes@[w].pid == p;
            assert(pid_set(new_processes@).contains(old_processes@[w].pid));
        }
        assert forall|p: u32| pid_set(new_processes@).contains(p) implies pid_set(
            old_processes@,
        ).contains(p) by {
            let w = choose|w: int| 0 <= w < new_processes@.len() && new_processes@[w].pid == p;
            assert(pid_set(old_processes@).contains(new_processes@[w].pid));
        }
        assert(pid_set(old_processes@) =~= pid_set(new_processes@));
    }
    false
}

/// Law: change detection is reflexive. A snapshot never differs from itself,
/// whatever the order or multiplicity of its elements.
pub proof fn lemma_changed_reflexive(holders: Seq<ProcessInfo>)
    ensures
        !changed_spec(holders, holders),
{
}

/// Law: change detection is symmetric. Swapping the two snapshots never
/// changes the verdict.
pub proof fn lemma_changed_symmetric(a: Seq<ProcessInfo>, b: Seq<ProcessInfo>)
    ensures
        changed_spec(a, b) == changed_spec(b, a),
{
}

/// Law: the name and path fields play no part in the verdict. Two snapshots
/// that agree pid for pid compare as unchanged, whatever identities were
/// resolved for them (so a pid reused by an unrelated process between polls
/// reads as no change — a known, accepted limitation).
pub proof fn lemma_changed_ignores_identities(a: Seq<ProcessInfo>, b: Seq<ProcessInfo>)
    requires
        a.len() == b.len(),
        forall|i: int| 0 <= i < a.len() ==> a[i].pid == b[i].pid,
    ensures
        !changed_spec(a, b),
{
    assert forall|p: u32| pid_set(a).contains(p) implies pid_set(b).contains(p) by {
        let i = choose|i: int| 0 <= i < a.len() && a[i].pid == p;
        assert(pid_set(b).contains(b[i].pid));
    }
    assert forall|p: u32| pid_set(b).contains(p) implies pid_set(a).contains(p) by {
        let i = choose|i: int| 0 <= i < b.len() && b[i].pid == p;
        assert(pid_set(a).contains(a[i].pid));
    }
    assert(pid_set(a) =~= pid_set(b));
}

/// Law: reordering a snapshot never registers as a change — two snapshots
/// holding the same records, in any order, compare as unchanged.
pub proof fn lemma_changed_permutation(a: Seq<ProcessInfo>, b: Seq<ProcessInfo>)
    requires
        a.to_multiset() == b.to_multiset(),
    ensures
        !changed_spec(a, b),
{
    a.to_multiset_ensures();
    b.to_multiset_ensures();
    assert forall|p: u32| pid_set(a).contains(p) implies pid_set(b).contains(p) by {
        let i = choose|i: int| 0 <= i < a.len() && a[i].pid == p;
        assert(a.contains(a[i]));
        assert(b.to_multiset().count(a[i]) > 0);
        assert(b.contains(a[i]));
        let j = choose|j: int| 0 <= j < b.len() && b[j] == a[i];
        assert(pid_set(b).contains(b[j].pid));
    }
    assert forall|p: u32| pid_set(b).contains(p) implies pid_set(a).contains(p) by {
        let i = choose|i: int| 0 <= i < b.len() && b[i].pid == p;
        assert(b.contains(b[i]));
        assert(a.to_multiset().count(b[i]) > 0);
        assert(a.contains(b[i]));
        let j = choose|j: int| 0 <= j < a.len() && a[j] == b[i];
        assert(pid_set(a).contains(a[j].pid));
    }
    assert(pid_set(a) =~= pid_set(b));
}

} // verus!
