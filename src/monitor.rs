use vstd::prelude::*;

use crate::geometry::{distance_sq, intersection_area, Rect};

verus! {

/// A monitor record, read through a monitor handle at enumeration time.
#[derive(Debug, Clone, Copy, PartialEq, Eq)]
pub struct NativeMonitor {
    pub handle: isize,
    pub rect: Rect,
}

impl NativeMonitor {
    pub fn new(handle: isize, rect: Rect) -> (r: NativeMonitor)
        ensures
            r == (NativeMonitor { handle, rect }),
    {
        NativeMonitor { handle, rect }
    }
}

/// No monitor shares any area with `frame`.
pub open spec fn overlaps_none(frame: Rect, monitors: Seq<NativeMonitor>) -> bool {
    forall|j: int| 0 <= j < monitors.len() ==> intersection_area(frame, #[trigger] monitors[j].rect) == 0
}

/// `i` is the monitor that a window with `frame` belongs to. Where some monitor
/// shares area with the window, it is the one that shares the most, and of
/// equal areas the first enumerated. Where none does, it is the one at the
/// smallest distance, and of equal distances the first enumerated.
pub open spec fn is_nearest(frame: Rect, monitors: Seq<NativeMonitor>, i: int) -> bool {
    &&& 0 <= i < monitors.len()
    &&& if overlaps_none(frame, monitors) {
        &&& forall|j: int|
            0 <= j < i ==> distance_sq(frame, #[trigger] monitors[j].rect) > distance_sq(
                frame,
                monitors[i].rect,
            )
        &&& forall|j: int|
            i < j < monitors.len() ==> distance_sq(frame, #[trigger] monitors[j].rect)
                >= distance_sq(frame, monitors[i].rect)
    } else {
        &&& forall|j: int|
            0 <= j < i ==> intersection_area(frame, #[trigger] monitors[j].rect)
                < intersection_area(frame, monitors[i].rect)
        &&& forall|j: int|
            i < j < monitors.len() ==> intersection_area(frame, #[trigger] monitors[j].rect)
                <= intersection_area(frame, monitors[i].rect)
    }
}

/// The choice of monitor is deterministic: at most one index obeys the
/// policy, so the same frame and monitors always give the same monitor.
pub proof fn lemma_nearest_is_unique(frame: Rect, monitors: Seq<NativeMonitor>, i: int, k: int)
    requires
        is_nearest(frame, monitors, i),
        is_nearest(frame, monitors, k),
    ensures
        i == k,
{
    if i < k {
        assert(intersection_area(frame, monitors[i].rect) < intersection_area(frame, monitors[k].rect)
            || distance_sq(frame, monitors[i].rect) > distance_sq(frame, monitors[k].rect));
    } else if k < i {
        assert(intersection_area(frame, monitors[k].rect) < intersection_area(frame, monitors[i].rect)
            || distance_sq(frame, monitors[k].rect) > distance_sq(frame, monitors[i].rect));
    }
}

/// Of two monitors that a window spans, the one that shares strictly more
/// area with it is chosen; where both share the same area, the first
/// enumerated is.
pub proof fn lemma_spanning_two_monitors(frame: Rect, monitors: Seq<NativeMonitor>, i: int)
    requires
        monitors.len() == 2,
        intersection_area(frame, monitors[0].rect) > 0,
        intersection_area(frame, monitors[1].rect) > 0,
        is_nearest(frame, monitors, i),
    ensures
        intersection_area(frame, monitors[1].rect) > intersection_area(frame, monitors[0].rect)
            ==> i == 1,
        intersection_area(frame, monitors[1].rect) <= intersection_area(frame, monitors[0].rect)
            ==> i == 0,
{
    assert(!overlaps_none(frame, monitors)) by {
        assert(intersection_area(frame, monitors[0].rect) > 0);
    }
}

/// Index of the monitor that a window with `frame` belongs to.
pub fn nearest_monitor_index(frame: &Rect, monitors: &Vec<NativeMonitor>) -> (r: usize)
    requires
        monitors@.len() > 0,
    ensures
        is_nearest(*frame, monitors@, r as int),
{
    let mut best: usize = 0;
    let mut best_area: u64 = frame.intersection_area(&monitors[0].rect);
    let mut i: usize = 1;
    while i < monitors.len()
        invariant
            1 <= i <= monitors@.len(),
            best < i,
            best_area as int == intersection_area(*frame, monitors@[best as int].rect),
            forall|j: int|
                0 <= j < i ==> intersection_area(*frame, #[trigger] monitors@[j].rect)
                    <= best_area,
            forall|j: int|
                0 <= j < best ==> intersection_area(*frame, #[trigger] monitors@[j].rect)
                    < best_area,
        decreases monitors@.len() - i,
    {
        let area = frame.intersection_area(&monitors[i].rect);
        if area > best_area {
            best = i;
            best_area = area;
        }
        i = i + 1;
    }
    if best_area > 0 {
        return best;
    }
    assert(overlaps_none(*frame, monitors@)) by {
        assert forall|j: int| 0 <= j < monitors@.len() implies intersection_area(
            *frame,
            #[trigger] monitors@[j].rect,
        ) == 0 by {
            crate::geometry::lemma_area_nonneg(*frame, monitors@[j].rect);
        }
    }
    let mut closest: usize = 0;
    let mut closest_d: u128 = frame.distance_sq(&monitors[0].rect);
    let mut i: usize = 1;
    while i < monitors.len()
        invariant
            1 <= i <= monitors@.len(),
            closest < i,
            closest_d as int == distance_sq(*frame, monitors@[closest as int].rect),
            forall|j: int|
                0 <= j < i ==> distance_sq(*frame, #[trigger] monitors@[j].rect) >= closest_d,
            forall|j: int|
                0 <= j < closest ==> distance_sq(*frame, #[trigger] monitors@[j].rect)
                    > closest_d,
        decreases monitors@.len() - i,
    {
        let d = frame.distance_sq(&monitors[i].rect);
        if d < closest_d {
            closest = i;
            closest_d = d;
        }
        i = i + 1;
    }
    closest
}

} // verus!
