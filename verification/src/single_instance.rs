//! Single-instance rule: a named mutex per user session.
use vstd::prelude::*;

verus! {

/// Name of the session-local mutex.
pub const MUTEX_NAME: &'static str = "Local\\CapsHangulRustMutex";

/// `ERROR_ALREADY_EXISTS`.
pub const ERROR_ALREADY_EXISTS: u32 = 183;

/// What creating the mutex means for this process.
#[derive(Clone, Copy, Debug, PartialEq, Eq, Structural)]
pub enum Acquire {
    /// The mutex could not be created (Win32 error code).
    Failed(u32),
    /// Another instance already holds it: close the handle and exit.
    AlreadyRunning,
    /// This process is the first instance: keep the handle.
    First,
}

/// Decides from the result of `CreateMutexW` (whether a handle came back, and the
/// last error code after the call).
pub fn acquire_outcome(handle_created: bool, last_error: u32) -> (a: Acquire)
    ensures
        a == (if !handle_created {
            Acquire::Failed(last_error)
        } else if last_error == ERROR_ALREADY_EXISTS {
            Acquire::AlreadyRunning
        } else {
            Acquire::First
        }),
{
    if !handle_created {
        Acquire::Failed(last_error)
    } else if last_error == ERROR_ALREADY_EXISTS {
        Acquire::AlreadyRunning
    } else {
        Acquire::First
    }
}

} // verus!
