use vstd::prelude::*;

use crate::error::{OsError, PlatformError, QueryFailure};

verus! {

/// What the operating system answered when asked to open the session-wide
/// named lock of the manager.
#[derive(Debug, Clone, Copy, PartialEq, Eq)]
pub enum LockOutcome {
    /// The lock was created by this call; the handle now holds it.
    Created(isize),
    /// The lock already existed: another process of this session holds it.
    AlreadyExists,
    /// The operating system could not open the lock at all.
    Failed(OsError),
}

/// Proof that this process is the only manager of its session. The lock it
/// holds is released by the operating system when the process ends, however
/// it ends.
#[derive(Debug, PartialEq, Eq)]
pub struct SingleInstance {
    handle: isize,
}

impl SingleInstance {
    pub closed spec fn lock_handle(&self) -> isize {
        self.handle
    }

    /// The handle of the lock held.
    pub fn handle(&self) -> (r: isize)
        ensures
            r == self.lock_handle(),
    {
        self.handle
    }

    /// The guard for a lock outcome: granted only where this call created the
    /// lock, refused where another instance holds it.
    pub fn acquire(outcome: LockOutcome) -> (r: Result<SingleInstance, PlatformError>)
        ensures
            match outcome {
                LockOutcome::Created(h) => r is Ok && r->Ok_0.lock_handle() == h,
                LockOutcome::AlreadyExists => r == Err::<SingleInstance, PlatformError>(
                    PlatformError::AlreadyRunningError,
                ),
                LockOutcome::Failed(e) => r == Err::<SingleInstance, PlatformError>(
                    PlatformError::PlatformQueryError(QueryFailure::Os(e)),
                ),
            },
    {
        match outcome {
            LockOutcome::Created(h) => Ok(SingleInstance { handle: h }),
            LockOutcome::AlreadyExists => Err(PlatformError::AlreadyRunningError),
            LockOutcome::Failed(e) => Err(PlatformError::PlatformQueryError(QueryFailure::Os(e))),
        }
    }
}

} // verus!
