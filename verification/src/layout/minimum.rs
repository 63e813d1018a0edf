//! The first pass: minimum constraints, from the leaves up.

use vstd::prelude::*;
use crate::axis::Axis;
use crate::constraints::BoxSizing;
use crate::layout::model::{min_pass, NodeKind};
use crate::layout::node::Node;
use crate::units::{gaps, highest, narrow, total, total_step};

verus! {

impl Node {
    /// Solves the minimum constraints of this node and of all nodes below
    /// it, and returns the minimum width and height of this node.
    pub fn solve_min_constraints(&mut self) -> (r: (i32, i32))
        ensures
            final(self)@ == min_pass(old(self)@),
            r == (final(self)@.constraints.min_width, final(self)@.constraints.min_height),
        decreases old(self)@.children,
    {
        let count = self.children.len();
        let ghost goal = min_pass(self@);
        let ghost widths = goal.child_mins(Axis::Horizontal);
        let ghost heights = goal.child_mins(Axis::Vertical);
        let mut sum_width: i128 = 0;
        let mut sum_height: i128 = 0;
        let mut top_width: i128 = 0;
        let mut top_height: i128 = 0;
        let mut first: (i32, i32) = (0, 0);
        let mut i: usize = 0;
        while i < count
            invariant
                0 <= i <= count,
                count == old(self).children.len(),
                self.children.len() == count,
                self.same_frame(*old(self)),
                goal == min_pass(old(self)@),
                widths == goal.child_mins(Axis::Horizontal),
                heights == goal.child_mins(Axis::Vertical),
                forall|j: int| 0 <= j < i ==> (#[trigger] self.children[j])@ == goal.children[j],
                forall|j: int| i <= j < count ==> #[trigger] self.children[j] == old(self).children[j],
                sum_width == total(widths.take(i as int)),
                sum_height == total(heights.take(i as int)),
                top_width == highest(widths.take(i as int)),
                top_height == highest(heights.take(i as int)),
                -0x8000_0000 * i <= sum_width <= 0x8000_0000 * i,
                -0x8000_0000 * i <= sum_height <= 0x8000_0000 * i,
                0 <= top_width <= 0x8000_0000,
                0 <= top_height <= 0x8000_0000,
                i == 0 ==> first == (0i32, 0i32),
                i > 0 ==> first == (
                    goal.children[0].constraints.min_width,
                    goal.children[0].constraints.min_height,
                ),
            decreases count - i,
        {
            assert(old(self)@.children[i as int] == old(self).children[i as int]@);
            let (width, height) = self.children[i].solve_min_constraints();
            proof {
                total_step(widths, i as int);
                total_step(heights, i as int);
            }
            if i == 0 {
                first = (width, height);
            }
            sum_width = sum_width + width as i128;
            sum_height = sum_height + height as i128;
            if width as i128 > top_width {
                top_width = width as i128;
            }
            if height as i128 > top_height {
                top_height = height as i128;
            }
            i += 1;
        }
        let between = gaps(self.spacing, count);
        proof {
            assert(self@.children =~= goal.children);
            assert(widths.take(count as int) =~= widths);
            assert(heights.take(count as int) =~= heights);
        }
        let content_width: i32 = match self.kind {
            NodeKind::Empty => self.constraints.min_width,
            NodeKind::Block => narrow(self.padding.along(Axis::Horizontal) as i128 + first.0 as i128),
            NodeKind::Horizontal => narrow(
                sum_width + between + self.padding.along(Axis::Horizontal) as i128,
            ),
            NodeKind::Vertical => narrow(top_width + self.padding.along(Axis::Horizontal) as i128),
        };
        let content_height: i32 = match self.kind {
            NodeKind::Empty => self.constraints.min_height,
            NodeKind::Block => narrow(self.padding.along(Axis::Vertical) as i128 + first.1 as i128),
            NodeKind::Horizontal => narrow(top_height + self.padding.along(Axis::Vertical) as i128),
            NodeKind::Vertical => narrow(
                sum_height + between + self.padding.along(Axis::Vertical) as i128,
            ),
        };
        self.constraints.min_width = match self.intrinsic_size.width {
            BoxSizing::Fixed(value) => value,
            _ => content_width,
        };
        self.constraints.min_height = match self.intrinsic_size.height {
            BoxSizing::Fixed(value) => value,
            _ => content_height,
        };
        (self.constraints.min_width, self.constraints.min_height)
    }
}

} // verus!
