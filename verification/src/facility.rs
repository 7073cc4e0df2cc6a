//! The boundary to the operating system's resource-coordination and process
//! facilities.
//!
//! Every OS interaction of the engine goes through [`ResourceQuery`]: one
//! implementation per target platform performs the raw calls, while the
//! engine's logic is verified against the trait's contracts alone. The
//! contracts promise nothing about what the OS reports — only how each call
//! moves the session and handle bookkeeping, which is what lets the engine
//! prove that every session is ended and every handle released on every path.

use vstd::prelude::*;

use crate::types::{RawHolder, TerminateError};

verus! {

/// The status code with which the facility's list query reports that the
/// supplied buffer is too small and says how large it must be. This is the
/// expected common case of the size-then-fetch protocol, not an error.
pub const MORE_DATA_STATUS: u32 = 234;

/// Access to the OS facilities the engine needs: holder enumeration under a
/// transient session, per-process image-path queries, and forceful
/// termination. All calls are blocking and sequential; a `0` status code
/// means success and any other value is the raw OS error code.
pub trait ResourceQuery: Sized {
    /// Whether a session with the resource-coordination facility is open.
    spec fn session_open(&self) -> bool;

    /// How many process handles are currently held open.
    spec fn open_handles(&self) -> nat;

    /// Open a transient session with the resource-coordination facility.
    fn start_session(&mut self) -> (r: Result<(), u32>)
        requires
            !old(self).session_open(),
        ensures
            final(self).open_handles() == old(self).open_handles(),
            final(self).session_open() == r is Ok,
    ;

    /// Register the one target file as a watched resource under the open
    /// session. On failure the session stays open: the caller must still end
    /// it.
    fn register_file(&mut self, file_path: &str) -> (r: Result<(), u32>)
        requires
            old(self).session_open(),
        ensures
            final(self).session_open(),
            final(self).open_handles() == old(self).open_handles(),
    ;

    /// First phase of the size-then-fetch protocol: ask how many holder
    /// entries exist. Returns `(status, needed)`: with holders present the
    /// status is [`MORE_DATA_STATUS`] and `needed` is the entry count the
    /// fetch buffer must accommodate.
    fn query_list_size(&mut self) -> (r: (u32, u32))
        requires
            old(self).session_open(),
        ensures
            final(self).session_open(),
            final(self).open_handles() == old(self).open_handles(),
    ;

    /// Second phase: fetch the holder entries with a buffer sized for
    /// `capacity` entries. On failure returns the raw status code.
    fn fetch_holders(&mut self, capacity: u32) -> (r: Result<Vec<RawHolder>, u32>)
        requires
            old(self).session_open(),
        ensures
            final(self).session_open(),
            final(self).open_handles() == old(self).open_handles(),
    ;

    /// End the open session. Always succeeds; the session is gone afterwards.
    fn end_session(&mut self)
        requires
            old(self).session_open(),
        ensures
            !final(self).session_open(),
            final(self).open_handles() == old(self).open_handles(),
    ;

    /// Try to open a query-rights handle on the process, sufficient to read
    /// its image path. `true` means one more handle is now held.
    fn open_for_query(&mut self, pid: u32) -> (r: bool)
        ensures
            final(self).session_open() == old(self).session_open(),
            final(self).open_handles() == old(self).open_handles() + (if r {
                1nat
            } else {
                0nat
            }),
    ;

    /// Read the image path of the process whose handle was opened most
    /// recently. `None` when the read fails or reports zero bytes.
    fn read_image_path(&mut self) -> (r: Option<String>)
        requires
            old(self).open_handles() > 0,
        ensures
            final(self).session_open() == old(self).session_open(),
            final(self).open_handles() == old(self).open_handles(),
    ;

    /// Try to open a terminate-rights handle on the process. `true` means one
    /// more handle is now held.
    fn open_for_terminate(&mut self, pid: u32) -> (r: bool)
        ensures
            final(self).session_open() == old(self).session_open(),
            final(self).open_handles() == old(self).open_handles() + (if r {
                1nat
            } else {
                0nat
            }),
    ;

    /// Request forceful termination, with a fixed non-zero exit code, of the
    /// process whose handle was opened most recently. `false` when the OS
    /// rejects the request.
    fn signal_terminate(&mut self) -> (r: bool)
        requires
            old(self).open_handles() > 0,
        ensures
            final(self).session_open() == old(self).session_open(),
            final(self).open_handles() == old(self).open_handles(),
    ;

    /// Release the most recently opened process handle.
    fn close_handle(&mut self)
        requires
            old(self).open_handles() > 0,
        ensures
            final(self).session_open() == old(self).session_open(),
            final(self).open_handles() == old(self).open_handles() - 1,
    ;
}

} // verus!
