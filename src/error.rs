use vstd::prelude::*;

verus! {

/// A failure code reported by the operating system (an HRESULT).
#[derive(Debug, Clone, Copy, PartialEq, Eq)]
pub struct OsError {
    pub code: i32,
}

/// Why a query of windows or monitors gave no answer.
#[derive(Debug, Clone, Copy, PartialEq, Eq)]
pub enum QueryFailure {
    /// The operating system refused the enumeration or lookup.
    Os(OsError),
    /// The enumeration succeeded but reported no monitor at all.
    NoMonitor,
}

/// Every failure that this layer reports. None is retried here: the caller
/// decides whether to retry, degrade or abort.
#[derive(Debug, Clone, Copy, PartialEq, Eq)]
pub enum PlatformError {
    /// A window or monitor query failed.
    PlatformQueryError(QueryFailure),
    /// The event hook or subscription could not be installed.
    ListenerStartError(OsError),
    /// Another instance already holds the single-instance guard of this session.
    AlreadyRunningError,
    /// The operating system rejected the DPI-awareness mode.
    PlatformConfigError(OsError),
    /// The operating system rejected the cursor injection.
    InputInjectionError(OsError),
}

} // verus!
