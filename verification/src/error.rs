//! Findings of a layout pass.

use vstd::prelude::*;
use crate::GlobalId;

verus! {

/// The axis of a container on which its content does not fit.
#[derive(Debug, Clone, Copy, PartialEq, Eq, PartialOrd, Ord, Structural)]
pub enum OverflowAxis {
    /// The axis along which the container arranges its children.
    MainAxis,
    /// The axis perpendicular to the main axis.
    CrossAxis,
}

/// Something that a layout pass found wrong with the tree. A finding never
/// stops the pass: it is recorded on the node and handed out afterwards.
#[derive(Debug, Clone, Copy, PartialEq, Eq, Structural)]
pub enum LayoutError {
    /// A child's box reaches beyond the box of its parent.
    OutOfBounds { parent_id: GlobalId, child_id: GlobalId },
    /// The content of a container is larger than the container on one axis.
    Overflow { id: GlobalId, axis: OverflowAxis },
}

impl LayoutError {
    /// The finding that `child_id` lies outside `parent_id`.
    pub fn out_of_bound(parent_id: GlobalId, child_id: GlobalId) -> (r: Self)
        ensures
            r == (LayoutError::OutOfBounds { parent_id, child_id }),
    {
        LayoutError::OutOfBounds { parent_id, child_id }
    }

    /// The finding that the content of `id` overflows it on `axis`.
    pub fn overflow(id: GlobalId, axis: OverflowAxis) -> (r: Self)
        ensures
            r == (LayoutError::Overflow { id, axis }),
    {
        LayoutError::Overflow { id, axis }
    }
}

} // verus!
