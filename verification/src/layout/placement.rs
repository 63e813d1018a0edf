//! The fourth pass: positions, from the root down, and the bounds check of
//! each child.

use vstd::prelude::*;
use crate::axis::Axis;
use crate::error::LayoutError;
use crate::layout::model::{
    aligned, beyond, bounds_findings, child_position, position_pass, run_total, NodeKind, NodeModel,
};
use crate::layout::node::Node;
use crate::position::Position;
use crate::size::Size;
use crate::units::{floor_div, gaps, narrow, total, total_step};
use crate::AxisAlignment;

verus! {

/// The largest magnitude of a run of children: what `usize::MAX` extents and
/// gaps can add up to.
pub(crate) const RUN_LIMIT: i128 = 0x10_0000_0000_0000_0000_0000_0000;

/// Where `alignment` puts the near edge of something of extent `extent`.
fn align(alignment: AxisAlignment, origin: i32, room: i32, near: u32, far: u32, extent: i128) -> (r:
    i128)
    requires
        -RUN_LIMIT <= extent <= RUN_LIMIT,
    ensures
        r == aligned(alignment, origin as int, room as int, near as int, far as int, extent as int),
        -2 * RUN_LIMIT <= r <= 2 * RUN_LIMIT,
{
    match alignment {
        AxisAlignment::Start => origin as i128 + near as i128,
        AxisAlignment::Center => origin as i128 + floor_div(room as i128 - extent, 2),
        AxisAlignment::End => origin as i128 + room as i128 - far as i128 - extent,
    }
}

/// Whether a box at `place` of extent `size` has an edge outside the box at
/// `origin` of extent `room`, along `axis`.
fn lies_beyond(origin: Position, room: Size, place: Position, size: Size, axis: Axis) -> (r: bool)
    ensures
        r == beyond(origin, room, place, size, axis),
{
    place.along(axis) < origin.along(axis) || place.along(axis) as i64 + size.along(axis) as i64
        > origin.along(axis) as i64 + room.along(axis) as i64
}

/// The findings about the children do not depend on where the node was
/// before it was placed.
proof fn bounds_findings_ignore_position(n: NodeModel, place: Position, origin: Position, count: int)
    ensures
        bounds_findings(NodeModel { position: place, ..n }, origin, count) == bounds_findings(
            n,
            origin,
            count,
        ),
    decreases count,
{
    if count > 0 {
        bounds_findings_ignore_position(n, place, origin, count - 1);
    }
}

/// The pass below a node does not depend on where the node was before it was
/// placed.
pub(crate) proof fn position_pass_replaces_origin(n: NodeModel, origin: Position)
    ensures
        position_pass(NodeModel { position: origin, ..n }, origin) == position_pass(n, origin),
{
    let m = NodeModel { position: origin, ..n };
    bounds_findings_ignore_position(n, origin, origin, n.children.len() as int);
    assert forall|i: int| 0 <= i < n.children.len() implies child_position(m, origin, i)
        == child_position(n, origin, i) by {}
    assert(position_pass(m, origin).children =~= position_pass(n, origin).children);
}

impl Node {
    /// The sum of the extents of the children along `axis`.
    fn run_extent(&self, axis: Axis) -> (r: i128)
        ensures
            r == total(self@.child_sizes(axis)),
            -0x8000_0000 * self.children.len() <= r <= 0x8000_0000 * self.children.len(),
    {
        let count = self.children.len();
        let ghost sizes = self@.child_sizes(axis);
        let mut sum: i128 = 0;
        let mut i: usize = 0;
        while i < count
            invariant
                0 <= i <= count,
                count == self.children.len(),
                self@.children.len() == count,
                forall|j: int| 0 <= j < count ==> #[trigger] self@.children[j] == self.children[j]@,
                sizes == self@.child_sizes(axis),
                sum == total(sizes.take(i as int)),
                -0x8000_0000 * i <= sum <= 0x8000_0000 * i,
            decreases count - i,
        {
            proof {
                total_step(sizes, i as int);
            }
            sum = sum + self.children[i].size.along(axis) as i128;
            i += 1;
        }
        proof {
            assert(sizes.take(count as int) =~= sizes);
        }
        sum
    }

    /// Places the children of this node, which lies where its position says,
    /// and all nodes below them; records each child that lies out of the
    /// bounds of its parent.
    ///
    /// The sizes of the tree must have been settled before.
    pub fn position_children(&mut self)
        ensures
            final(self)@ == position_pass(old(self)@, old(self)@.position),
        decreases old(self)@.children,
    {
        let count = self.children.len();
        let ghost own = self@;
        let kind = self.kind;
        let id = self.id;
        let origin = self.position;
        let room = self.size;
        let padding = self.padding;
        let spacing = self.spacing;
        let cross_alignment = self.cross_axis_alignment;
        let ghost goal = position_pass(own, origin);
        let main = kind.main_axis();
        let cross = main.cross();
        let ghost sizes = own.child_sizes(main);
        let run = self.run_extent(main) + gaps(spacing, count);
        let start = align(
            self.main_axis_alignment,
            origin.along(main),
            room.along(main),
            padding.near(main),
            padding.far(main),
            run,
        );
        let scroll: i128 = match kind {
            NodeKind::Vertical => self.scroll_offset as i128,
            _ => 0,
        };
        let mut found: Vec<LayoutError> = Vec::new();
        let mut before: i128 = 0;
        let mut i: usize = 0;
        while i < count
            invariant
                0 <= i <= count,
                count == old(self).children.len(),
                self.children.len() == count,
                self.same_frame(*old(self)),
                own == old(self)@,
                own.children.len() == count,
                kind == own.kind,
                id == own.id,
                origin == own.position,
                room == own.size,
                padding == own.padding,
                spacing == own.spacing,
                cross_alignment == own.cross_axis_alignment,
                main == kind.main_axis(),
                cross == main.cross(),
                scroll == own.scroll(),
                sizes == own.child_sizes(main),
                run == run_total(own),
                start == aligned(
                    own.main_axis_alignment,
                    origin.along(main) as int,
                    room.along(main) as int,
                    padding.near(main) as int,
                    padding.far(main) as int,
                    run_total(own),
                ),
                -2 * RUN_LIMIT <= start <= 2 * RUN_LIMIT,
                goal == position_pass(own, origin),
                forall|j: int| 0 <= j < count ==> #[trigger] own.children[j] == old(self).children[j]@,
                forall|j: int| 0 <= j < i ==> (#[trigger] self.children[j])@ == goal.children[j],
                forall|j: int| i <= j < count ==> #[trigger] self.children[j] == old(self).children[j],
                before == total(sizes.take(i as int)),
                -0x8000_0000 * i <= before <= 0x8000_0000 * i,
                found@ == bounds_findings(own, origin, i as int),
            decreases count - i,
        {
            let ghost earlier = own.children[i as int];
            let step: i128 = spacing as i128;
            let index: i128 = i as i128;
            assert(0 <= step * index <= 0xFFFF_FFFF * 0xFFFF_FFFF_FFFF_FFFF) by (nonlinear_arith)
                requires
                    0 <= step <= 0xFFFF_FFFF,
                    0 <= index <= 0xFFFF_FFFF_FFFF_FFFF,
            ;
            let child = &mut self.children[i];
            let extent = child.size;
            let main_at = narrow(start + before + step * index + scroll);
            let across: i128 = match cross_alignment {
                AxisAlignment::End => if kind.is_flow() {
                    0
                } else {
                    extent.along(cross) as i128
                },
                _ => extent.along(cross) as i128,
            };
            let cross_at = narrow(
                align(
                    cross_alignment,
                    origin.along(cross),
                    room.along(cross),
                    padding.near(cross),
                    padding.far(cross),
                    across,
                ),
            );
            let place = match main {
                Axis::Horizontal => Position { x: main_at, y: cross_at },
                Axis::Vertical => Position { x: cross_at, y: main_at },
            };
            let out = lies_beyond(origin, room, place, extent, Axis::Horizontal) || lies_beyond(
                origin,
                room,
                place,
                extent,
                Axis::Vertical,
            );
            if out {
                found.push(LayoutError::out_of_bound(id, child.id));
            }
            child.position = place;
            proof {
                position_pass_replaces_origin(earlier, place);
                total_step(sizes, i as int);
            }
            child.position_children();
            before = before + extent.along(main) as i128;
            i += 1;
        }
        self.errors.append(&mut found);
        proof {
            assert(self@.children =~= goal.children);
        }
    }
}

} // verus!
