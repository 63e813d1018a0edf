//! The second pass: maximum constraints, from the root down.

use vstd::prelude::*;
use crate::axis::Axis;
use crate::constraints::{BoxConstraints, BoxSizing};
use crate::layout::model::{
    block_space, cross_space, flex_factor, flex_total, limit_along, main_space, max_pass,
    rigid_extent, rigid_total, NodeModel,
};
use crate::layout::node::Node;
use crate::size::Size;
use crate::units::{gaps, narrow, share, total, total_covers, total_step};

verus! {

/// What a row or column has worked out about its children before it hands
/// out their maximum constraints.
struct Rooms {
    /// Whether the parent is a row or column.
    flow: bool,
    /// The main axis of the parent.
    main: Axis,
    /// The space left for the flexible children along the main axis.
    main_room: i32,
    /// The space offered to a flexible child across the main axis.
    cross_room: i32,
    /// The sum of the flex factors along the main axis.
    flex_sum: u128,
    /// What a block has left inside its padding.
    inner: Size,
}

impl Rooms {
    /// Whether these are the rooms of `own` when it is given `space`.
    spec fn of(self, own: NodeModel, space: Size) -> bool {
        &&& self.flow == own.kind.is_flow()
        &&& self.main == own.kind.main_axis()
        &&& self.main_room == main_space(own)
        &&& self.cross_room == cross_space(own)
        &&& self.flex_sum == flex_total(own, own.kind.main_axis())
        &&& self.inner == block_space(own, space)
    }

    /// Sets the maximum along `axis` in the constraints of a child that is
    /// sized by `sizing` along it.
    fn limit(
        &self,
        limits: &mut BoxConstraints,
        sizing: BoxSizing,
        axis: Axis,
        Ghost(own): Ghost<NodeModel>,
        Ghost(space): Ghost<Size>,
        Ghost(child): Ghost<NodeModel>,
    )
        requires
            self.of(own, space),
            child.constraints == *old(limits),
            child.intrinsic_size.along(axis) == sizing,
            self.flow && axis == self.main ==> flex_factor(sizing) <= self.flex_sum <= i128::MAX,
        ensures
            *final(limits) == limit_along(own, space, child, axis),
    {
        match sizing {
            BoxSizing::Fixed(value) => {
                limits.limit(axis, value);
            },
            BoxSizing::Shrink => {
                if self.flow {
                    let least = limits.min_along(axis);
                    limits.limit(axis, least);
                }
            },
            BoxSizing::Flex(factor) => {
                if !self.flow {
                    limits.limit(axis, self.inner.along(axis));
                } else if axis == self.main {
                    limits.limit(axis, share(self.main_room, factor, self.flex_sum));
                } else {
                    limits.limit(axis, self.cross_room);
                }
            },
        }
    }
}

/// The pass below a node does not depend on the constraints that the node
/// had before it was given new ones.
proof fn max_pass_replaces_limits(n: NodeModel, limits: BoxConstraints, space: Size)
    ensures
        max_pass(NodeModel { constraints: limits, ..n }, limits, space) == max_pass(
            n,
            limits,
            space,
        ),
{
    let m = NodeModel { constraints: limits, ..n };
    assert(max_pass(m, limits, space).children =~= max_pass(n, limits, space).children);
}

impl Node {
    /// The sum of the flex factors of the children along `axis`, and the sum
    /// of what the rigid children take along it.
    fn child_totals(&self, axis: Axis) -> (r: (u128, i128))
        ensures
            r.0 == flex_total(self@, axis),
            r.1 == rigid_total(self@, axis),
            r.0 <= 255 * self.children.len(),
            -0x8000_0000 * self.children.len() <= r.1 <= 0x8000_0000 * self.children.len(),
            forall|i: int|
                0 <= i < self.children.len() ==> flex_factor(
                    #[trigger] self@.children[i].intrinsic_size.along(axis),
                ) <= r.0,
    {
        let count = self.children.len();
        let ghost factors = Seq::new(
            self@.children.len(),
            |i: int| flex_factor(self@.children[i].intrinsic_size.along(axis)),
        );
        let ghost rigids = Seq::new(
            self@.children.len(),
            |i: int| rigid_extent(self@.children[i], axis),
        );
        let mut flex_sum: u128 = 0;
        let mut rigid_sum: i128 = 0;
        let mut i: usize = 0;
        while i < count
            invariant
                0 <= i <= count,
                count == self.children.len(),
                self@.children.len() == count,
                forall|j: int| 0 <= j < count ==> #[trigger] self@.children[j] == self.children[j]@,
                factors == Seq::new(
                    self@.children.len(),
                    |i: int| flex_factor(self@.children[i].intrinsic_size.along(axis)),
                ),
                rigids == Seq::new(
                    self@.children.len(),
                    |i: int| rigid_extent(self@.children[i], axis),
                ),
                flex_sum == total(factors.take(i as int)),
                rigid_sum == total(rigids.take(i as int)),
                flex_sum <= 255 * i,
                -0x8000_0000 * i <= rigid_sum <= 0x8000_0000 * i,
            decreases count - i,
        {
            let child = &self.children[i];
            proof {
                total_step(factors, i as int);
                total_step(rigids, i as int);
            }
            match child.intrinsic_size.along(axis) {
                BoxSizing::Fixed(value) => {
                    rigid_sum = rigid_sum + value as i128;
                },
                BoxSizing::Shrink => {
                    rigid_sum = rigid_sum + child.constraints.min_along(axis) as i128;
                },
                BoxSizing::Flex(factor) => {
                    flex_sum = flex_sum + factor as u128;
                },
            }
            i += 1;
        }
        proof {
            assert(factors.take(count as int) =~= factors);
            assert(rigids.take(count as int) =~= rigids);
            assert forall|i: int| 0 <= i < self.children.len() implies flex_factor(
                #[trigger] self@.children[i].intrinsic_size.along(axis),
            ) <= flex_sum by {
                total_covers(factors, i);
            }
        }
        (flex_sum, rigid_sum)
    }

    /// Hands the maximum constraints down the tree below this node, which
    /// has been told that `space` is available to it.
    ///
    /// The node's own maximum constraints must have been set by its parent or
    /// by the caller, and the minimum constraints of the whole tree must have
    /// been solved before.
    pub fn solve_max_constraints(&mut self, space: Size)
        ensures
            final(self)@ == max_pass(old(self)@, old(self)@.constraints, space),
        decreases old(self)@.children,
    {
        let count = self.children.len();
        let ghost own = self@;
        let ghost goal = max_pass(own, own.constraints, space);
        let main = self.kind.main_axis();
        let cross = main.cross();
        let (flex_sum, rigid_sum) = self.child_totals(main);
        let main_basis = match self.intrinsic_size.along(main) {
            BoxSizing::Shrink => self.constraints.min_along(main),
            _ => self.constraints.max_along(main),
        };
        let rooms = Rooms {
            flow: self.kind.is_flow(),
            main,
            main_room: narrow(
                main_basis as i128 - self.padding.along(main) as i128 - rigid_sum - gaps(
                    self.spacing,
                    count,
                ),
            ),
            cross_room: match self.intrinsic_size.along(cross) {
                BoxSizing::Shrink => self.constraints.min_along(cross),
                _ => narrow(
                    self.constraints.max_along(cross) as i128 - self.padding.along(cross) as i128,
                ),
            },
            flex_sum,
            inner: Size {
                width: narrow(space.width as i128 - self.padding.along(Axis::Horizontal) as i128),
                height: narrow(space.height as i128 - self.padding.along(Axis::Vertical) as i128),
            },
        };
        let mut i: usize = 0;
        while i < count
            invariant
                0 <= i <= count,
                count == old(self).children.len(),
                self.children.len() == count,
                self.same_frame(*old(self)),
                own == old(self)@,
                own.children.len() == count,
                rooms.of(own, space),
                rooms.flex_sum <= 255 * count,
                forall|j: int|
                    0 <= j < count ==> flex_factor(
                        #[trigger] own.children[j].intrinsic_size.along(rooms.main),
                    ) <= rooms.flex_sum,
                goal == max_pass(own, own.constraints, space),
                forall|j: int| 0 <= j < count ==> #[trigger] own.children[j] == old(self).children[j]@,
                forall|j: int| 0 <= j < i ==> (#[trigger] self.children[j])@ == goal.children[j],
                forall|j: int| i <= j < count ==> #[trigger] self.children[j] == old(self).children[j],
            decreases count - i,
        {
            let ghost before = own.children[i as int];
            let child = &mut self.children[i];
            let width_sizing = child.intrinsic_size.along(Axis::Horizontal);
            let height_sizing = child.intrinsic_size.along(Axis::Vertical);
            let mut limits = child.constraints;
            rooms.limit(
                &mut limits,
                width_sizing,
                Axis::Horizontal,
                Ghost(own),
                Ghost(space),
                Ghost(before),
            );
            let ghost wide = NodeModel { constraints: limits, ..before };
            rooms.limit(
                &mut limits,
                height_sizing,
                Axis::Vertical,
                Ghost(own),
                Ghost(space),
                Ghost(wide),
            );
            child.constraints = limits;
            let room = if rooms.flow {
                Size {
                    width: limits.max_along(Axis::Horizontal),
                    height: limits.max_along(Axis::Vertical),
                }
            } else {
                rooms.inner
            };
            proof {
                max_pass_replaces_limits(before, limits, room);
            }
            child.solve_max_constraints(room);
            i += 1;
        }
        proof {
            assert(self@.children =~= goal.children);
        }
    }
}

} // verus!
