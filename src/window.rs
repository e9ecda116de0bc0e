use vstd::prelude::*;

use crate::geometry::Rect;

verus! {

/// A window record: what was read through one window handle at query time.
/// The handle is owned by the operating system; a handle of zero stands for
/// "no window".
#[derive(Debug, Clone, Copy, PartialEq, Eq)]
pub struct NativeWindow {
    pub handle: isize,
    pub frame: Rect,
    pub visible: bool,
    pub tool_window: bool,
    pub cloaked: bool,
    /// Identifier of the owning process; zero where it could not be resolved.
    pub process_id: u32,
}

impl NativeWindow {
    /// Whether the layout logic may take control of this window.
    pub open spec fn manageable(self) -> bool {
        self.handle != 0 && self.visible && !self.tool_window && !self.cloaked
            && self.process_id != 0
    }

    pub fn new(
        handle: isize,
        frame: Rect,
        visible: bool,
        tool_window: bool,
        cloaked: bool,
        process_id: u32,
    ) -> (r: NativeWindow)
        ensures
            r == (NativeWindow { handle, frame, visible, tool_window, cloaked, process_id }),
    {
        NativeWindow { handle, frame, visible, tool_window, cloaked, process_id }
    }

    /// The record that stands for no window: a null handle and nothing else.
    pub fn none() -> (r: NativeWindow)
        ensures
            r == (NativeWindow {
                handle: 0,
                frame: Rect { left: 0, top: 0, right: 0, bottom: 0 },
                visible: false,
                tool_window: false,
                cloaked: false,
                process_id: 0,
            }),
    {
        NativeWindow {
            handle: 0,
            frame: Rect { left: 0, top: 0, right: 0, bottom: 0 },
            visible: false,
            tool_window: false,
            cloaked: false,
            process_id: 0,
        }
    }

    /// Whether the record stands for no window at all.
    pub fn is_null(&self) -> (r: bool)
        ensures
            r == (self.handle == 0),
    {
        self.handle == 0
    }

    pub fn is_manageable(&self) -> (r: bool)
        ensures
            r == self.manageable(),
    {
        self.handle != 0 && self.visible && !self.tool_window && !self.cloaked
            && self.process_id != 0
    }
}

/// The windows of `all` that are manageable, in their order of enumeration.
pub open spec fn manageable_of(all: Seq<NativeWindow>) -> Seq<NativeWindow> {
    all.filter(|w: NativeWindow| w.manageable())
}

/// Positions in `all` of the windows that `manageable_of` keeps.
pub open spec fn manageable_positions(all: Seq<NativeWindow>) -> Seq<int>
    decreases all.len(),
{
    if all.len() == 0 {
        Seq::empty()
    } else {
        let prev = manageable_positions(all.drop_last());
        if all.last().manageable() {
            prev.push(all.len() - 1)
        } else {
            prev
        }
    }
}

/// `part` is `all` with some items left out and the order of the rest kept:
/// `positions` says where each item of `part` stands in `all`.
pub open spec fn is_ordered_selection(
    part: Seq<NativeWindow>,
    all: Seq<NativeWindow>,
    positions: Seq<int>,
) -> bool {
    &&& positions.len() == part.len()
    &&& forall|k: int|
        0 <= k < part.len() ==> 0 <= #[trigger] positions[k] < all.len() && part[k]
            == all[positions[k]]
    &&& forall|k1: int, k2: int|
        0 <= k1 < k2 < part.len() ==> #[trigger] positions[k1] < #[trigger] positions[k2]
}

/// Keeping the manageable windows only leaves windows out: what remains is
/// manageable, and in the order that the enumeration gave.
pub proof fn lemma_manageable_keeps_order(all: Seq<NativeWindow>)
    ensures
        is_ordered_selection(manageable_of(all), all, manageable_positions(all)),
        forall|k: int|
            0 <= k < manageable_of(all).len() ==> (#[trigger] manageable_of(all)[k]).manageable(),
    decreases all.len(),
{
    reveal(Seq::filter);
    if all.len() > 0 {
        let rest = all.drop_last();
        lemma_manageable_keeps_order(rest);
        let prev = manageable_positions(rest);
        assert(forall|k: int| 0 <= k < prev.len() ==> prev[k] < rest.len());
        assert(forall|k: int| 0 <= k < rest.len() ==> #[trigger] rest[k] == all[k]);
        let part = manageable_of(all);
        let pos = manageable_positions(all);
        assert forall|k: int| 0 <= k < part.len() implies 0 <= #[trigger] pos[k] < all.len()
            && part[k] == all[pos[k]] by {
            if k < manageable_of(rest).len() {
                assert(part[k] == manageable_of(rest)[k]);
                assert(pos[k] == prev[k]);
            }
        }
        assert forall|k1: int, k2: int| 0 <= k1 < k2 < part.len() implies #[trigger] pos[k1]
            < #[trigger] pos[k2] by {
            assert(pos[k1] == prev[k1]);
            if k2 < prev.len() {
                assert(pos[k2] == prev[k2]);
            }
        }
        assert forall|k: int| 0 <= k < part.len() implies (#[trigger] part[k]).manageable() by {
            if k < manageable_of(rest).len() {
                assert(part[k] == manageable_of(rest)[k]);
            }
        }
    }
}

/// Keeps the manageable windows of `all`, in order.
pub fn filter_manageable(all: &Vec<NativeWindow>) -> (r: Vec<NativeWindow>)
    ensures
        r@ == manageable_of(all@),
{
    let mut r: Vec<NativeWindow> = Vec::new();
    let mut i: usize = 0;
    proof {
        reveal(Seq::filter);
    }
    while i < all.len()
        invariant
            i <= all@.len(),
            r@ == manageable_of(all@.take(i as int)),
        decreases all@.len() - i,
    {
        let w = all[i];
        assert(all@.take(i as int + 1).drop_last() =~= all@.take(i as int));
        proof {
            reveal(Seq::filter);
        }
        if w.is_manageable() {
            r.push(w);
        }
        i = i + 1;
    }
    assert(all@.take(i as int) =~= all@);
    r
}

} // verus!
