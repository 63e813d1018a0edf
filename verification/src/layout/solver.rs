//! The solver: four passes over a tree, and the findings they made.

use vstd::prelude::*;
use crate::error::LayoutError;
use crate::layout::interface::Layout;
use crate::layout::model::{findings, solved};
use crate::size::Size;

verus! {

/// Solves the size and position of every node of the tree below and
/// including `root`, which is given `window_size`, and returns what was found
/// wrong on the way.
///
/// Findings left over from earlier passes are discarded first. The root
/// takes the height of the window as its maximum, and its width unless a
/// maximum width has been set on it. Then the minimum constraints are solved
/// from the leaves up, the maximum constraints handed down from the root, the
/// sizes settled and the children placed. The findings come out parents
/// first, and none stays in the tree.
pub fn solve_layout<L: Layout>(root: &mut L, window_size: Size) -> (r: Vec<LayoutError>)
    ensures
        final(root)@ == solved(old(root)@, window_size),
        r@ == findings(old(root)@, window_size),
{
    let node = root.node_mut();
    node.clear_errors();
    if node.constraints.max_width.is_none() {
        node.constraints.max_width = Some(window_size.width);
    }
    node.constraints.max_height = window_size.height;
    // The minimum constraints come first: a container that shrinks counts
    // the space of its children from them.
    node.solve_min_constraints();
    node.solve_max_constraints(window_size);
    node.update_size();
    node.position_children();
    node.collect_errors()
}

} // verus!
