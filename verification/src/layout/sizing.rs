//! The third pass: final sizes, and the overflow check of each container.

use vstd::prelude::*;
use crate::axis::Axis;
use crate::constraints::BoxSizing;
use crate::error::{LayoutError, OverflowAxis};
use crate::layout::model::{overflows, size_pass, with_overflow, NodeKind, NodeModel};
use crate::layout::node::Node;
use crate::units::{gaps, highest, total, total_step};

verus! {

/// Whether `errors` holds `finding`.
pub(crate) fn recorded(errors: &Vec<LayoutError>, finding: LayoutError) -> (r: bool)
    ensures
        r == errors@.contains(finding),
{
    let mut i: usize = 0;
    while i < errors.len()
        invariant
            0 <= i <= errors.len(),
            forall|j: int| 0 <= j < i ==> errors@[j] != finding,
        decreases errors.len() - i,
    {
        if errors[i] == finding {
            return true;
        }
        i += 1;
    }
    false
}

/// The extent that a node sized by `sizing` takes between `least` and `most`.
fn resolve(sizing: BoxSizing, least: i32, most: i32) -> (r: i32)
    ensures
        r == match sizing {
            BoxSizing::Fixed(value) => value,
            BoxSizing::Shrink => least,
            BoxSizing::Flex(_) => most,
        },
{
    match sizing {
        BoxSizing::Fixed(value) => value,
        BoxSizing::Shrink => least,
        BoxSizing::Flex(_) => most,
    }
}

impl Node {
    /// Records the overflow of this node on `axis`, if `over` says that there
    /// is one and it is not recorded yet.
    fn record_overflow(&mut self, axis: OverflowAxis, over: bool, Ghost(sized): Ghost<NodeModel>)
        requires
            over == overflows(sized, axis),
            sized.id == old(self).id,
        ensures
            final(self).errors@ == with_overflow(old(self).errors@, sized, axis),
            final(self).children == old(self).children,
            final(self).kind == old(self).kind,
            final(self).id == old(self).id,
            final(self).label == old(self).label,
            final(self).size == old(self).size,
            final(self).position == old(self).position,
            final(self).intrinsic_size == old(self).intrinsic_size,
            final(self).constraints == old(self).constraints,
            final(self).padding == old(self).padding,
            final(self).spacing == old(self).spacing,
            final(self).scroll_offset == old(self).scroll_offset,
            final(self).main_axis_alignment == old(self).main_axis_alignment,
            final(self).cross_axis_alignment == old(self).cross_axis_alignment,
    {
        let finding = LayoutError::overflow(self.id, axis);
        if over && !recorded(&self.errors, finding) {
            self.errors.push(finding);
        }
    }

    /// Gives this node and all nodes below it their final size, and records
    /// on each row or column whether its content overflows it.
    ///
    /// The minimum and maximum constraints of the tree must have been solved
    /// before.
    pub fn update_size(&mut self)
        ensures
            final(self)@ == size_pass(old(self)@),
        decreases old(self)@.children,
    {
        let count = self.children.len();
        let ghost own = self@;
        let ghost goal = size_pass(own);
        let ghost widths = goal.child_sizes(Axis::Horizontal);
        let ghost heights = goal.child_sizes(Axis::Vertical);
        self.size.width = resolve(
            self.intrinsic_size.width,
            self.constraints.min_width,
            self.constraints.max_along(Axis::Horizontal),
        );
        self.size.height = resolve(
            self.intrinsic_size.height,
            self.constraints.min_height,
            self.constraints.max_height,
        );
        let ghost resized = *self;
        let mut sum_width: i128 = 0;
        let mut sum_height: i128 = 0;
        let mut top_width: i128 = 0;
        let mut top_height: i128 = 0;
        let mut i: usize = 0;
        while i < count
            invariant
                0 <= i <= count,
                count == old(self).children.len(),
                self.children.len() == count,
                self.same_frame(resized),
                resized.children == old(self).children,
                own == old(self)@,
                own.children.len() == count,
                goal == size_pass(own),
                widths == goal.child_sizes(Axis::Horizontal),
                heights == goal.child_sizes(Axis::Vertical),
                forall|j: int| 0 <= j < count ==> #[trigger] own.children[j] == old(self).children[j]@,
                forall|j: int| 0 <= j < i ==> (#[trigger] self.children[j])@ == goal.children[j],
                forall|j: int| i <= j < count ==> #[trigger] self.children[j] == old(self).children[j],
                sum_width == total(widths.take(i as int)),
                sum_height == total(heights.take(i as int)),
                top_width == highest(widths.take(i as int)),
                top_height == highest(heights.take(i as int)),
                -0x8000_0000 * i <= sum_width <= 0x8000_0000 * i,
                -0x8000_0000 * i <= sum_height <= 0x8000_0000 * i,
                0 <= top_width <= 0x8000_0000,
                0 <= top_height <= 0x8000_0000,
            decreases count - i,
        {
            assert(own.children[i as int] == old(self).children[i as int]@);
            let child = &mut self.children[i];
            child.update_size();
            let width = child.size.width;
            let height = child.size.height;
            proof {
                total_step(widths, i as int);
                total_step(heights, i as int);
            }
            sum_width = sum_width + width as i128;
            sum_height = sum_height + height as i128;
            if width as i128 > top_width {
                top_width = width as i128;
            }
            if height as i128 > top_height {
                top_height = height as i128;
            }
            i += 1;
        }
        let ghost sized = NodeModel { size: resized.size, children: goal.children, ..own };
        proof {
            assert(self@.children =~= goal.children);
            assert(widths.take(count as int) =~= widths);
            assert(heights.take(count as int) =~= heights);
        }
        let between = gaps(self.spacing, count);
        let (cross_over, main_over) = match self.kind {
            NodeKind::Horizontal => (
                top_height + self.padding.along(Axis::Vertical) as i128 > self.size.height as i128,
                sum_width + between + self.padding.along(Axis::Horizontal) as i128
                    > self.size.width as i128,
            ),
            NodeKind::Vertical => (
                top_width + self.padding.along(Axis::Horizontal) as i128 > self.size.width as i128,
                sum_height + between + self.padding.along(Axis::Vertical) as i128
                    > self.size.height as i128,
            ),
            _ => (false, false),
        };
        self.record_overflow(OverflowAxis::CrossAxis, cross_over, Ghost(sized));
        self.record_overflow(OverflowAxis::MainAxis, main_over, Ghost(sized));
    }
}

} // verus!
