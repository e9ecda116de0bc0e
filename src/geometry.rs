use vstd::prelude::*;

verus! {

/// An axis-aligned rectangle in virtual-screen coordinates. The right and
/// bottom edges are exclusive; an inverted rectangle covers nothing.
#[derive(Debug, Clone, Copy, PartialEq, Eq)]
pub struct Rect {
    pub left: i32,
    pub top: i32,
    pub right: i32,
    pub bottom: i32,
}

/// Length of the overlap of the half-open intervals `[a_lo, a_hi)` and `[b_lo, b_hi)`.
pub open spec fn overlap_len(a_lo: int, a_hi: int, b_lo: int, b_hi: int) -> int {
    let lo = if a_lo >= b_lo { a_lo } else { b_lo };
    let hi = if a_hi <= b_hi { a_hi } else { b_hi };
    if hi > lo { hi - lo } else { 0 }
}

/// Area shared by two rectangles.
pub open spec fn intersection_area(a: Rect, b: Rect) -> int {
    overlap_len(a.left as int, a.right as int, b.left as int, b.right as int)
        * overlap_len(a.top as int, a.bottom as int, b.top as int, b.bottom as int)
}

fn overlap_exec(a_lo: i32, a_hi: i32, b_lo: i32, b_hi: i32) -> (r: u64)
    ensures
        r as int == overlap_len(a_lo as int, a_hi as int, b_lo as int, b_hi as int),
        r <= 0xffff_ffff,
{
    let lo: i32 = if a_lo >= b_lo { a_lo } else { b_lo };
    let hi: i32 = if a_hi <= b_hi { a_hi } else { b_hi };
    if hi > lo {
        (hi as i64 - lo as i64) as u64
    } else {
        0
    }
}

/// Gap between the half-open intervals `[a_lo, a_hi)` and `[b_lo, b_hi)`:
/// zero where they overlap or touch.
pub open spec fn gap_len(a_lo: int, a_hi: int, b_lo: int, b_hi: int) -> int {
    if b_lo > a_hi {
        b_lo - a_hi
    } else if a_lo > b_hi {
        a_lo - b_hi
    } else {
        0
    }
}

/// Square of the Euclidean distance between two rectangles: zero where they
/// overlap or touch.
pub open spec fn distance_sq(a: Rect, b: Rect) -> int {
    let dx = gap_len(a.left as int, a.right as int, b.left as int, b.right as int);
    let dy = gap_len(a.top as int, a.bottom as int, b.top as int, b.bottom as int);
    dx * dx + dy * dy
}

pub proof fn lemma_area_nonneg(a: Rect, b: Rect)
    ensures
        intersection_area(a, b) >= 0,
{
    let w = overlap_len(a.left as int, a.right as int, b.left as int, b.right as int);
    let h = overlap_len(a.top as int, a.bottom as int, b.top as int, b.bottom as int);
    assert(w * h >= 0) by (nonlinear_arith)
        requires
            w >= 0,
            h >= 0,
    ;
}

fn gap_exec(a_lo: i32, a_hi: i32, b_lo: i32, b_hi: i32) -> (r: u64)
    ensures
        r as int == gap_len(a_lo as int, a_hi as int, b_lo as int, b_hi as int),
        r <= 0xffff_ffff,
{
    if b_lo > a_hi {
        (b_lo as i64 - a_hi as i64) as u64
    } else if a_lo > b_hi {
        (a_lo as i64 - b_hi as i64) as u64
    } else {
        0
    }
}

impl Rect {
    pub fn new(left: i32, top: i32, right: i32, bottom: i32) -> (r: Rect)
        ensures
            r == (Rect { left, top, right, bottom }),
    {
        Rect { left, top, right, bottom }
    }

    /// Area that this rectangle shares with `other`.
    pub fn intersection_area(&self, other: &Rect) -> (r: u64)
        ensures
            r as int == intersection_area(*self, *other),
    {
        let w = overlap_exec(self.left, self.right, other.left, other.right);
        let h = overlap_exec(self.top, self.bottom, other.top, other.bottom);
        assert(w * h <= 0xffff_ffffu64 * 0xffff_ffffu64) by (nonlinear_arith)
            requires
                w <= 0xffff_ffff,
                h <= 0xffff_ffff,
        ;
        w * h
    }

    /// Square of the distance from this rectangle to `other`.
    pub fn distance_sq(&self, other: &Rect) -> (r: u128)
        ensures
            r as int == distance_sq(*self, *other),
    {
        let dx = gap_exec(self.left, self.right, other.left, other.right) as u128;
        let dy = gap_exec(self.top, self.bottom, other.top, other.bottom) as u128;
        assert(dx * dx <= 0xffff_ffffu128 * 0xffff_ffffu128) by (nonlinear_arith)
            requires
                dx <= 0xffff_ffff,
        ;
        assert(dy * dy <= 0xffff_ffffu128 * 0xffff_ffffu128) by (nonlinear_arith)
            requires
                dy <= 0xffff_ffff,
        ;
        dx * dx + dy * dy
    }
}

} // verus!
