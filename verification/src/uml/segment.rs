//! An edge of the graph: an unordered pair of group states with a directed
//! rendering.

use vstd::prelude::*;
use crate::eq::ViewEq;
use super::item::state::{ItemState, ItemStateView};

verus! {

/// Two related group states.  The pair is unordered for deduplication — the
/// segments (a, b) and (b, a) count as the same edge — while the stored
/// orientation decides the rendered source, target, arrowhead and style.
pub struct Segment {
    pub left: ItemState,
    pub right: ItemState,
}

/// The ghost form of a `Segment`.
#[verifier::ext_equal]
pub ghost struct SegmentView {
    pub left: ItemStateView,
    pub right: ItemStateView,
}

impl View for Segment {
    type V = SegmentView;

    open spec fn view(&self) -> SegmentView {
        SegmentView { left: self.left@, right: self.right@ }
    }
}

/// Whether two segments connect the same unordered pair of states, in either
/// orientation.
pub open spec fn seg_same_pair(a: SegmentView, b: SegmentView) -> bool {
    ||| (a.left == b.left && a.right == b.right)
    ||| (a.left == b.right && a.right == b.left)
}

impl Segment {
    /// Whether this segment and `other` connect the same unordered pair.
    pub fn same_pair(&self, other: &Segment) -> (r: bool)
        ensures
            r == seg_same_pair(self@, other@),
    {
        (self.left.same_as(&other.left) && self.right.same_as(&other.right)) || (
        self.left.same_as(&other.right) && self.right.same_as(&other.left))
    }
}

} // verus!
