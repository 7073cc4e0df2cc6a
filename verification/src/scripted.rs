//! A deterministic, in-memory stand-in for the OS facilities.
//!
//! Driven by fixed tables, it implements [`ResourceQuery`] — and proves the
//! trait's session and handle bookkeeping — without any operating system
//! behind it, so the engine can be exercised end to end: holders enumerated,
//! identities resolved, terminations attempted, and failures injected at
//! each stage.

use vstd::prelude::*;

use crate::facility::{ResourceQuery, MORE_DATA_STATUS};
use crate::types::RawHolder;

verus! {

/// The OS facilities replaced by tables: what enumeration reports, which
/// pids resolve to which image paths, and which operations are scripted to
/// fail.
pub struct ScriptedFacility {
    /// The holder entries enumeration reports.
    pub holders: Vec<RawHolder>,
    /// Image paths by pid; a pid absent here reads as no path.
    pub image_paths: Vec<(u32, String)>,
    /// Pids for which opening any process handle fails.
    pub unopenable_pids: Vec<u32>,
    /// Pids for which the termination request is rejected.
    pub unkillable_pids: Vec<u32>,
    /// Injected status code for starting a session; `0` means success.
    pub session_fail_code: u32,
    /// Injected status code for registering the file; `0` means success.
    pub registration_fail_code: u32,
    /// Injected status code for the holder enumeration; `0` means success.
    pub enumeration_fail_code: u32,
    /// Whether a session is currently open.
    pub session_active: bool,
    /// The pids of the process handles currently held, most recent last.
    pub handle_pids: Vec<u32>,
}

/// Whether the pid occurs in the list.
fn pids_contain(pids: &Vec<u32>, pid: u32) -> (r: bool)
    ensures
        r == pids@.contains(pid),
{
    let mut i: usize = 0;
    while i < pids.len()
        invariant
            0 <= i <= pids@.len(),
            forall|j: int| 0 <= j < i ==> pids@[j] != pid,
        decreases pids@.len() - i,
    {
        if pids[i] == pid {
            return true;
        }
        i += 1;
    }
    false
}

/// An element-for-element copy of a raw holder list.
fn clone_raw_holders(holders: &Vec<RawHolder>) -> (r: Vec<RawHolder>)
    ensures
        r@ == holders@,
{
    let mut r: Vec<RawHolder> = Vec::new();
    let mut i: usize = 0;
    while i < holders.len()
        invariant
            0 <= i <= holders@.len(),
            r@.len() == i,
            forall|j: int| 0 <= j < i ==> r@[j] == holders@[j],
        decreases holders@.len() - i,
    {
        r.push(holders[i].clone());
        i += 1;
    }
    proof {
        assert(r@ =~= holders@);
    }
    r
}

impl ScriptedFacility {
    /// A facility with the given holder table and image paths, every
    /// operation succeeding, no session open and no handle held.
    pub fn new(holders: Vec<RawHolder>, image_paths: Vec<(u32, String)>) -> (r: ScriptedFacility)
        ensures
            !r.session_open(),
            r.open_handles() == 0,
            r.holders@ == holders@,
            r.image_paths@ == image_paths@,
            r.unopenable_pids@.len() == 0,
            r.unkillable_pids@.len() == 0,
            r.session_fail_code == 0,
            r.registration_fail_code == 0,
            r.enumeration_fail_code == 0,
    {
        ScriptedFacility {
            holders,
            image_paths,
            unopenable_pids: Vec::new(),
            unkillable_pids: Vec::new(),
            session_fail_code: 0,
            registration_fail_code: 0,
            enumeration_fail_code: 0,
            session_active: false,
            handle_pids: Vec::new(),
        }
    }
}

impl ResourceQuery for ScriptedFacility {
    open spec fn session_open(&self) -> bool {
        self.session_active
    }

    open spec fn open_handles(&self) -> nat {
        self.handle_pids@.len()
    }

    fn start_session(&mut self) -> (r: Result<(), u32>) {
        if self.session_fail_code == 0 {
            self.session_active = true;
            Ok(())
        } else {
            Err(self.session_fail_code)
        }
    }

    fn register_file(&mut self, file_path: &str) -> (r: Result<(), u32>) {
        if self.registration_fail_code == 0 {
            Ok(())
        } else {
            Err(self.registration_fail_code)
        }
    }

    fn query_list_size(&mut self) -> (r: (u32, u32)) {
        if self.enumeration_fail_code != 0 {
            (self.enumeration_fail_code, 0)
        } else if self.holders.len() == 0 {
            (0, 0)
        } else if self.holders.len() < 4294967295usize {
            (MORE_DATA_STATUS, self.holders.len() as u32)
        } else {
            (0, 0)
        }
    }

    fn fetch_holders(&mut self, capacity: u32) -> (r: Result<Vec<RawHolder>, u32>) {
        Ok(clone_raw_holders(&self.holders))
    }

    fn end_session(&mut self) {
        self.session_active = false;
    }

    fn open_for_query(&mut self, pid: u32) -> (r: bool) {
        if pids_contain(&self.unopenable_pids, pid) {
            false
        } else {
            self.handle_pids.push(pid);
            true
        }
    }

    fn read_image_path(&mut self) -> (r: Option<String>) {
        let pid = self.handle_pids[self.handle_pids.len() - 1];
        let mut i: usize = 0;
        while i < self.image_paths.len()
            invariant
                0 <= i <= self.image_paths@.len(),
            decreases self.image_paths@.len() - i,
        {
            if self.image_paths[i].0 == pid {
                return Some(self.image_paths[i].1.clone());
            }
            i += 1;
        }
        None
    }

    fn open_for_terminate(&mut self, pid: u32) -> (r: bool) {
        if pids_contain(&self.unopenable_pids, pid) {
            false
        } else {
            self.handle_pids.push(pid);
            true
        }
    }

    fn signal_terminate(&mut self) -> (r: bool) {
        let pid = self.handle_pids[self.handle_pids.len() - 1];
        !pids_contain(&self.unkillable_pids, pid)
    }

    fn close_handle(&mut self) {
        let popped = self.handle_pids.pop();
    }
}

} // verus!
