use wm_platform::{
    EventListener, ListenerState, LockOutcome, NativeMonitor, NativeWindow, OsError, Platform,
    PlatformError, PlatformEvent, QueryFailure, Rect,
};

fn window(handle: isize, frame: Rect) -> NativeWindow {
    NativeWindow::new(handle, frame, true, false, false, 100)
}

fn two_monitors() -> Vec<NativeMonitor> {
    vec![
        NativeMonitor::new(1, Rect::new(0, 0, 1920, 1080)),
        NativeMonitor::new(2, Rect::new(1920, 0, 3840, 1080)),
    ]
}

#[test]
fn intersection_area_exact() {
    let a = Rect::new(0, 0, 100, 50);
    let b = Rect::new(60, 10, 200, 200);
    assert_eq!(a.intersection_area(&b), 40 * 40);
    assert_eq!(b.intersection_area(&a), 1600);
}

#[test]
fn intersection_area_disjoint_and_inverted() {
    let a = Rect::new(0, 0, 10, 10);
    assert_eq!(a.intersection_area(&Rect::new(10, 0, 20, 10)), 0);
    assert_eq!(a.intersection_area(&Rect::new(5, 5, 2, 2)), 0);
}

#[test]
fn intersection_area_largest_rectangle() {
    let full = Rect::new(i32::MIN, i32::MIN, i32::MAX, i32::MAX);
    let side: u64 = u32::MAX as u64;
    assert_eq!(full.intersection_area(&full), side * side);
}

#[test]
fn nearest_monitor_largest_overlap_wins() {
    let w = window(7, Rect::new(1800, 100, 2300, 600));
    let r = Platform::nearest_monitor(Ok(w.frame), Ok(two_monitors())).unwrap();
    assert_eq!(r.handle, 2);
    let w = window(7, Rect::new(1500, 100, 2000, 600));
    let r = Platform::nearest_monitor(Ok(w.frame), Ok(two_monitors())).unwrap();
    assert_eq!(r.handle, 1);
}

#[test]
fn nearest_monitor_tie_goes_to_first_enumerated() {
    let w = window(7, Rect::new(1820, 0, 2020, 500));
    for _ in 0..3 {
        let r = Platform::nearest_monitor(Ok(w.frame), Ok(two_monitors())).unwrap();
        assert_eq!(r.handle, 1);
    }
    let mut reversed = two_monitors();
    reversed.reverse();
    assert_eq!(Platform::nearest_monitor(Ok(w.frame), Ok(reversed)).unwrap().handle, 2);
}

#[test]
fn nearest_monitor_without_overlap_is_closest() {
    let w = window(7, Rect::new(5000, 5000, 5100, 5100));
    let r = Platform::nearest_monitor(Ok(w.frame), Ok(two_monitors())).unwrap();
    assert_eq!(r.handle, 2);
    let w = window(7, Rect::new(-300, 2000, -200, 2100));
    let r = Platform::nearest_monitor(Ok(w.frame), Ok(two_monitors())).unwrap();
    assert_eq!(r.handle, 1);
}

#[test]
fn nearest_monitor_equal_distance_goes_to_first_enumerated() {
    let w = window(7, Rect::new(1820, 2000, 2020, 2100));
    let r = Platform::nearest_monitor(Ok(w.frame), Ok(two_monitors())).unwrap();
    assert_eq!(r.handle, 1);
}

#[test]
fn nearest_monitor_follows_fresh_frame() {
    let moved = Rect::new(2500, 100, 2900, 500);
    let r = Platform::nearest_monitor(Ok(moved), Ok(two_monitors())).unwrap();
    assert_eq!(r.handle, 2);
}

#[test]
fn nearest_monitor_reports_failed_queries() {
    let e = OsError { code: 1400 };
    assert_eq!(
        Platform::nearest_monitor(Err(e), Ok(two_monitors())),
        Err(PlatformError::PlatformQueryError(QueryFailure::Os(e)))
    );
    let f = OsError { code: -2147467259 };
    assert_eq!(
        Platform::nearest_monitor(Ok(Rect::new(0, 0, 10, 10)), Err(f)),
        Err(PlatformError::PlatformQueryError(QueryFailure::Os(f)))
    );
}

#[test]
fn rectangle_distance_exact() {
    let a = Rect::new(0, 0, 10, 10);
    assert_eq!(a.distance_sq(&Rect::new(13, 14, 20, 20)), 3 * 3 + 4 * 4);
    assert_eq!(a.distance_sq(&Rect::new(10, 0, 20, 10)), 0);
    assert_eq!(a.distance_sq(&Rect::new(5, 5, 6, 6)), 0);
    let far = Rect::new(i32::MIN, i32::MIN, i32::MIN, i32::MIN);
    let near = Rect::new(i32::MAX, i32::MAX, i32::MAX, i32::MAX);
    let side: u128 = u32::MAX as u128;
    assert_eq!(far.distance_sq(&near), 2 * side * side);
}

#[test]
fn nearest_monitor_picks_later_strictly_larger() {
    let monitors = vec![
        NativeMonitor::new(1, Rect::new(0, 0, 100, 100)),
        NativeMonitor::new(2, Rect::new(100, 0, 200, 100)),
        NativeMonitor::new(3, Rect::new(200, 0, 300, 100)),
    ];
    let w = window(7, Rect::new(90, 0, 300, 100));
    assert_eq!(Platform::nearest_monitor(Ok(w.frame), Ok(monitors)).unwrap().handle, 2);
}

#[test]
fn nearest_monitor_without_monitors_fails() {
    let w = window(7, Rect::new(0, 0, 10, 10));
    assert_eq!(
        Platform::nearest_monitor(Ok(w.frame), Ok(Vec::new())),
        Err(PlatformError::PlatformQueryError(QueryFailure::NoMonitor))
    );
}

#[test]
fn monitors_pass_through_whole_list() {
    let r = Platform::monitors(Ok(two_monitors())).unwrap();
    assert_eq!(r, two_monitors());
}

#[test]
fn monitors_report_enumeration_failure() {
    let e = OsError { code: -2147467259 };
    assert_eq!(
        Platform::monitors(Err(e)),
        Err(PlatformError::PlatformQueryError(QueryFailure::Os(e)))
    );
}

#[test]
fn manageable_windows_keep_order() {
    let f = Rect::new(0, 0, 10, 10);
    let all = vec![
        window(5, f),
        NativeWindow::new(6, f, false, false, false, 100),
        window(3, f),
        NativeWindow::new(8, f, true, true, false, 100),
        NativeWindow::new(9, f, true, false, true, 100),
        NativeWindow::new(10, f, true, false, false, 0),
        NativeWindow::new(0, f, true, false, false, 100),
        window(1, f),
    ];
    let r = Platform::manageable_windows(Ok(all)).unwrap();
    let handles: Vec<isize> = r.iter().map(|w| w.handle).collect();
    assert_eq!(handles, vec![5, 3, 1]);
}

#[test]
fn manageable_windows_empty() {
    assert_eq!(Platform::manageable_windows(Ok(Vec::new())), Ok(Vec::new()));
}

#[test]
fn manageable_windows_report_failure() {
    let e = OsError { code: 5 };
    assert_eq!(
        Platform::manageable_windows(Err(e)),
        Err(PlatformError::PlatformQueryError(QueryFailure::Os(e)))
    );
}

#[test]
fn null_window_record() {
    let none = NativeWindow::new(0, Rect::new(0, 0, 0, 0), false, false, false, 0);
    assert!(none.is_null());
    assert!(!none.is_manageable());
    assert!(!window(42, Rect::new(0, 0, 1, 1)).is_null());
}

#[test]
fn second_instance_is_refused_until_owner_exits() {
    let mut holder: Option<u32> = None;
    let mut open_lock = |pid: u32, handle: isize| {
        if holder.is_some() {
            LockOutcome::AlreadyExists
        } else {
            holder = Some(pid);
            LockOutcome::Created(handle)
        }
    };
    let first = Platform::new_single_instance(open_lock(1, 64)).unwrap();
    assert_eq!(first.handle(), 64);
    let second = Platform::new_single_instance(open_lock(2, 68));
    assert_eq!(second, Err(PlatformError::AlreadyRunningError));
    drop(open_lock);
    holder = None;
    let mut open_lock = |pid: u32, handle: isize| {
        if holder.is_some() {
            LockOutcome::AlreadyExists
        } else {
            holder = Some(pid);
            LockOutcome::Created(handle)
        }
    };
    let third = Platform::new_single_instance(open_lock(3, 72)).unwrap();
    assert_eq!(third.handle(), 72);
}

#[test]
fn single_instance_open_failure() {
    let e = OsError { code: 5 };
    assert_eq!(
        Platform::new_single_instance(LockOutcome::Failed(e)),
        Err(PlatformError::PlatformQueryError(QueryFailure::Os(e)))
    );
}

#[test]
fn listener_delivers_in_order() {
    let mut l = Platform::new_event_listener(Ok(())).unwrap();
    assert_eq!(l.state(), ListenerState::Running);
    assert!(l.deliver(PlatformEvent::WindowShown(3)));
    assert!(l.deliver(PlatformEvent::WindowFocused(3)));
    assert!(l.deliver(PlatformEvent::WindowFocused(3)));
    assert!(l.deliver(PlatformEvent::DisplaySettingsChanged));
    assert_eq!(l.pending_count(), 4);
    assert_eq!(l.next_event(), Some(PlatformEvent::WindowShown(3)));
    assert_eq!(l.next_event(), Some(PlatformEvent::WindowFocused(3)));
    assert_eq!(l.next_event(), Some(PlatformEvent::WindowFocused(3)));
    assert_eq!(l.next_event(), Some(PlatformEvent::DisplaySettingsChanged));
    assert_eq!(l.next_event(), None);
}

#[test]
fn listener_silent_after_stop() {
    let mut l = Platform::new_event_listener(Ok(())).unwrap();
    assert!(l.deliver(PlatformEvent::WindowMoved(1)));
    l.stop();
    assert!(!l.is_running());
    assert_eq!(l.pending_count(), 0);
    for h in 0..100 {
        assert!(!l.deliver(PlatformEvent::WindowMoved(h)));
        assert_eq!(l.next_event(), None);
    }
    l.stop();
    assert_eq!(l.state(), ListenerState::Stopped);
}

#[test]
fn listener_start_failure() {
    let e = OsError { code: 1428 };
    let r = EventListener::start(Err(e));
    assert!(matches!(r, Err(PlatformError::ListenerStartError(x)) if x == e));
}

#[test]
fn dpi_awareness_rejected_after_window_exists() {
    let mut window_exists = false;
    let os_set_dpi = |exists: bool| {
        if exists {
            Err(OsError { code: -2147024891 })
        } else {
            Ok(())
        }
    };
    assert_eq!(Platform::set_dpi_awareness(os_set_dpi(window_exists)), Ok(()));
    window_exists = true;
    assert_eq!(
        Platform::set_dpi_awareness(os_set_dpi(window_exists)),
        Err(PlatformError::PlatformConfigError(OsError { code: -2147024891 }))
    );
}

#[test]
fn cursor_injection_rejected() {
    assert_eq!(Platform::set_cursor_pos(Ok(())), Ok(()));
    let e = OsError { code: -2147024891 };
    assert_eq!(
        Platform::set_cursor_pos(Err(e)),
        Err(PlatformError::InputInjectionError(e))
    );
}

#[test]
fn foreground_window_without_focus_is_null() {
    let r = Platform::foreground_window(None);
    assert!(r.is_null());
    assert!(!r.is_manageable());
    let w = window(42, Rect::new(0, 0, 800, 600));
    assert_eq!(Platform::foreground_window(Some(w)), w);
}

#[test]
fn desktop_window_record() {
    let d = NativeWindow::new(65552, Rect::new(0, 0, 3840, 1080), true, false, false, 4);
    assert_eq!(Platform::desktop_window(Some(d)).handle, 65552);
    assert!(Platform::desktop_window(None).is_null());
}
