//! Data carried through the lock-resolution engine: holder records, snapshots,
//! and the error taxonomy of the OS-facing operations.

use vstd::prelude::*;

verus! {

/// One process reported as holding an open handle on the inspected file.
///
/// Equality for change detection uses `pid` alone; `name` and `path` are
/// best-effort display information (see `detect`).
#[derive(Debug)]
pub struct ProcessInfo {
    pub pid: u32,
    pub name: String,
    pub path: String,
}

impl Clone for ProcessInfo {
    fn clone(&self) -> (res: Self)
        ensures
            res == *self,
    {
        ProcessInfo { pid: self.pid, name: self.name.clone(), path: self.path.clone() }
    }
}

/// The result of one inspection: the inspected path and the holders the
/// resource-coordination facility reported, in the order it reported them.
///
/// An empty `processes` list is a weak signal only: kernel-mode holders are
/// invisible to the facility. Callers corroborate emptiness with a direct
/// open probe (see `corroborate`).
#[derive(Debug)]
pub struct FileLockInfo {
    pub file_path: String,
    pub processes: Vec<ProcessInfo>,
}

/// A raw holder entry as the facility reports it: a pid and a best-effort
/// application name. The image path is resolved separately per pid.
#[derive(Debug)]
pub struct RawHolder {
    pub pid: u32,
    pub name: String,
}

impl Clone for RawHolder {
    fn clone(&self) -> (res: Self)
        ensures
            res == *self,
    {
        RawHolder { pid: self.pid, name: self.name.clone() }
    }
}

/// A failure of the resource-coordination facility, with the raw OS status
/// code for diagnosability. Always recoverable by the caller: it ends the one
/// inspection, never the process.
#[derive(Debug, Clone, Copy, PartialEq, Eq, Structural)]
pub enum SystemQueryError {
    /// The session with the facility could not be started.
    SessionStart(u32),
    /// The target file could not be registered under the session.
    Registration(u32),
    /// The holder list could not be retrieved.
    Enumeration(u32),
}

/// A per-process termination failure. Isolated: one failure never aborts the
/// rest of a termination batch.
#[derive(Debug, Clone, Copy, PartialEq, Eq, Structural)]
pub enum TerminateError {
    /// No terminate-rights handle could be opened (already exited, access
    /// denied, or protected process).
    OpenFailed,
    /// The handle was opened but the termination request was rejected.
    SignalFailed,
}

} // verus!
