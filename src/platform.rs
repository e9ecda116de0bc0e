use vstd::prelude::*;

use crate::error::{OsError, PlatformError, QueryFailure};
use crate::instance::{LockOutcome, SingleInstance};
use crate::listener::{running_model, EventListener};
use crate::geometry::Rect;
use crate::monitor::{is_nearest, nearest_monitor_index, NativeMonitor};
use crate::window::{filter_manageable, manageable_of, NativeWindow};

verus! {

/// The one entry point through which the manager reasons about the
/// operating system. Each function takes what the operating system reported
/// in the same call and applies this layer's policy to it; nothing is cached
/// from one call to the next.
pub struct Platform;

impl Platform {
    /// The focused window's record; where no window has focus, the record of
    /// the null handle, which callers must treat as "none".
    pub fn foreground_window(focused: Option<NativeWindow>) -> (r: NativeWindow)
        ensures
            focused is Some ==> r == focused->Some_0,
            focused is None ==> r.handle == 0 && !r.manageable(),
    {
        match focused {
            Some(w) => w,
            None => NativeWindow::none(),
        }
    }

    /// The record of the root desktop window, the background container; the
    /// record of the null handle where the desktop could not be read.
    pub fn desktop_window(desktop: Option<NativeWindow>) -> (r: NativeWindow)
        ensures
            desktop is Some ==> r == desktop->Some_0,
            desktop is None ==> r.handle == 0 && !r.manageable(),
    {
        match desktop {
            Some(w) => w,
            None => NativeWindow::none(),
        }
    }

    /// The freshly enumerated monitors, or the enumeration's failure; never a
    /// part of the list.
    pub fn monitors(enumerated: Result<Vec<NativeMonitor>, OsError>) -> (r: Result<
        Vec<NativeMonitor>,
        PlatformError,
    >)
        ensures
            enumerated is Ok <==> r is Ok,
            r is Ok ==> r->Ok_0@ == enumerated->Ok_0@,
            enumerated is Err ==> r == Err::<Vec<NativeMonitor>, PlatformError>(
                PlatformError::PlatformQueryError(QueryFailure::Os(enumerated->Err_0)),
            ),
    {
        match enumerated {
            Ok(list) => Ok(list),
            Err(e) => Err(PlatformError::PlatformQueryError(QueryFailure::Os(e))),
        }
    }

    /// The monitor that a window belongs to. `frame` is the window's frame as
    /// read through its handle in this same call, or the failure of that read;
    /// `enumerated` is the monitor enumeration of this call, in its order. The
    /// monitor that shares the largest area with the frame wins, of equal
    /// areas the first enumerated; where none shares any area, the closest
    /// wins, of equal distances the first enumerated.
    pub fn nearest_monitor(
        frame: Result<Rect, OsError>,
        enumerated: Result<Vec<NativeMonitor>, OsError>,
    ) -> (r: Result<NativeMonitor, PlatformError>)
        ensures
            frame is Err ==> r == Err::<NativeMonitor, PlatformError>(
                PlatformError::PlatformQueryError(QueryFailure::Os(frame->Err_0)),
            ),
            frame is Ok && enumerated is Err ==> r == Err::<NativeMonitor, PlatformError>(
                PlatformError::PlatformQueryError(QueryFailure::Os(enumerated->Err_0)),
            ),
            frame is Ok && enumerated is Ok && enumerated->Ok_0@.len() == 0 ==> r == Err::<
                NativeMonitor,
                PlatformError,
            >(PlatformError::PlatformQueryError(QueryFailure::NoMonitor)),
            r is Ok <==> (frame is Ok && enumerated is Ok && enumerated->Ok_0@.len() > 0),
            r is Ok ==> exists|i: int|
                is_nearest(frame->Ok_0, enumerated->Ok_0@, i) && r->Ok_0
                    == #[trigger] enumerated->Ok_0@[i],
    {
        let frame = match frame {
            Ok(f) => f,
            Err(e) => {
                return Err(PlatformError::PlatformQueryError(QueryFailure::Os(e)));
            },
        };
        let monitors = match enumerated {
            Ok(list) => list,
            Err(e) => {
                return Err(PlatformError::PlatformQueryError(QueryFailure::Os(e)));
            },
        };
        if monitors.len() == 0 {
            Err(PlatformError::PlatformQueryError(QueryFailure::NoMonitor))
        } else {
            let i = nearest_monitor_index(&frame, &monitors);
            Ok(monitors[i])
        }
    }

    /// The manageable windows among those enumerated, in enumeration order.
    pub fn manageable_windows(available: Result<Vec<NativeWindow>, OsError>) -> (r: Result<
        Vec<NativeWindow>,
        PlatformError,
    >)
        ensures
            available is Ok <==> r is Ok,
            r is Ok ==> r->Ok_0@ == manageable_of(available->Ok_0@),
            available is Err ==> r == Err::<Vec<NativeWindow>, PlatformError>(
                PlatformError::PlatformQueryError(QueryFailure::Os(available->Err_0)),
            ),
    {
        match available {
            Ok(all) => Ok(filter_manageable(&all)),
            Err(e) => Err(PlatformError::PlatformQueryError(QueryFailure::Os(e))),
        }
    }

    /// A running listener, where the hook was installed, with nothing pending.
    pub fn new_event_listener(installed: Result<(), OsError>) -> (r: Result<
        EventListener,
        PlatformError,
    >)
        ensures
            installed is Ok <==> r is Ok,
            r is Ok ==> r->Ok_0@ == running_model(),
            installed is Err ==> r == Err::<EventListener, PlatformError>(
                PlatformError::ListenerStartError(installed->Err_0),
            ),
    {
        EventListener::start(installed)
    }

    /// The single-instance guard of this session, refused with
    /// `AlreadyRunningError` where another instance holds the lock.
    pub fn new_single_instance(outcome: LockOutcome) -> (r: Result<SingleInstance, PlatformError>)
        ensures
            match outcome {
                LockOutcome::Created(h) => r is Ok && r->Ok_0.lock_handle() == h,
                LockOutcome::AlreadyExists => r == Err::<SingleInstance, PlatformError>(
                    PlatformError::AlreadyRunningError,
                ),
                LockOutcome::Failed(e) => r == Err::<SingleInstance, PlatformError>(
                    PlatformError::PlatformQueryError(QueryFailure::Os(e)),
                ),
            },
    {
        SingleInstance::acquire(outcome)
    }

    /// Reports the outcome of setting per-monitor DPI awareness: a rejection
    /// (for instance once a window exists) is never swallowed.
    pub fn set_dpi_awareness(outcome: Result<(), OsError>) -> (r: Result<(), PlatformError>)
        ensures
            outcome is Ok <==> r is Ok,
            outcome is Err ==> r == Err::<(), PlatformError>(
                PlatformError::PlatformConfigError(outcome->Err_0),
            ),
    {
        match outcome {
            Ok(()) => Ok(()),
            Err(e) => Err(PlatformError::PlatformConfigError(e)),
        }
    }

    /// Reports the outcome of moving the cursor: a rejection (input blocked,
    /// secure desktop) is never swallowed.
    pub fn set_cursor_pos(outcome: Result<(), OsError>) -> (r: Result<(), PlatformError>)
        ensures
            outcome is Ok <==> r is Ok,
            outcome is Err ==> r == Err::<(), PlatformError>(
                PlatformError::InputInjectionError(outcome->Err_0),
            ),
    {
        match outcome {
            Ok(()) => Ok(()),
            Err(e) => Err(PlatformError::InputInjectionError(e)),
        }
    }
}

} // verus!
