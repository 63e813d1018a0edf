//! What all layout nodes have in common.

use vstd::prelude::*;
use crate::constraints::{BoxConstraints, IntrinsicSize};
use crate::error::LayoutError;
use crate::layout::iter::{first_with, preorder, LayoutIter};
use crate::layout::model::{
    all_errors, cleared, max_pass, min_pass, position_pass, size_pass, NodeModel,
};
use crate::layout::node::Node;
use crate::layout::sealed::Sealed;
use crate::position::{Bounds, Position};
use crate::size::Size;
use crate::units::clamp;
use crate::GlobalId;

verus! {

/// A layout node.
pub trait Layout: Sealed {
    /// The tree as a plain node, which can stand beside nodes of other kinds.
    fn into_node(self) -> (r: Node)
        ensures
            r@ == self@,
    {
        self.take_node()
    }

    /// The name of the node: its label, or the name of its kind.
    fn label(&self) -> (r: String)
        ensures
            r@ == self@.label_text(),
    {
        self.node().label()
    }

    /// Solves the minimum constraints of this node and of all nodes below
    /// it, and returns the minimum width and height of this node.
    fn solve_min_constraints(&mut self) -> (r: (i32, i32))
        ensures
            final(self)@ == min_pass(old(self)@),
            r == (
                final(self)@.constraints.min_width,
                final(self)@.constraints.min_height,
            ),
    {
        self.node_mut().solve_min_constraints()
    }

    /// Hands the maximum constraints down the tree below this node, which
    /// has been told that `space` is available to it.
    fn solve_max_constraints(&mut self, space: Size)
        ensures
            final(self)@ == max_pass(old(self)@, old(self)@.constraints, space),
    {
        self.node_mut().solve_max_constraints(space)
    }

    /// Places the children of this node and all nodes below them, and
    /// records each child that lies out of the bounds of its parent.
    fn position_children(&mut self)
        ensures
            final(self)@ == position_pass(old(self)@, old(self)@.position),
    {
        self.node_mut().position_children()
    }

    /// Gives this node and all nodes below it their final size, and records
    /// on each row or column whether its content overflows it.
    fn update_size(&mut self)
        ensures
            final(self)@ == size_pass(old(self)@),
    {
        self.node_mut().update_size()
    }

    /// Takes all findings out of the tree: those of a node before those of
    /// its children.
    fn collect_errors(&mut self) -> (r: Vec<LayoutError>)
        ensures
            r@ == all_errors(old(self)@),
            final(self)@ == cleared(old(self)@),
    {
        self.node_mut().collect_errors()
    }

    /// The identifier of the node.
    fn id(&self) -> (r: GlobalId)
        ensures
            r == self@.id,
    {
        self.node().id()
    }

    /// The constraints of the node.
    fn constraints(&self) -> (r: BoxConstraints)
        ensures
            r == self@.constraints,
    {
        self.node().constraints()
    }

    /// The size that the node asks for.
    fn get_intrinsic_size(&self) -> (r: IntrinsicSize)
        ensures
            r == self@.intrinsic_size,
    {
        self.node().get_intrinsic_size()
    }

    /// The size of the node.
    fn size(&self) -> (r: Size)
        ensures
            r == self@.size,
    {
        self.node().size()
    }

    /// The position of the node.
    fn position(&self) -> (r: Position)
        ensures
            r == self@.position,
    {
        self.node().position()
    }

    /// The box that the node covers.
    fn bounds(&self) -> (r: Bounds)
        ensures
            r.x@ == seq![self@.position.x, clamp(self@.position.x + self@.size.width)],
            r.y@ == seq![
                self@.position.y,
                clamp(self@.position.y + self@.size.height),
            ],
    {
        self.node().bounds()
    }

    /// The children of the node, in their order.
    fn children(&self) -> (r: &[Node])
        ensures
            r@.len() == self@.children.len(),
            forall|i: int| 0 <= i < r@.len() ==> (#[trigger] r@[i])@ == self@.children[i],
    {
        self.node().children()
    }

    /// Sets the largest width.
    fn set_max_width(&mut self, width: i32)
        ensures
            final(self)@ == (NodeModel {
                constraints: BoxConstraints { max_width: Some(width), ..old(self)@.constraints },
                ..old(self)@
            }),
    {
        self.node_mut().set_max_width(width)
    }

    /// Sets the largest height.
    fn set_max_height(&mut self, height: i32)
        ensures
            final(self)@ == (NodeModel {
                constraints: BoxConstraints { max_height: height, ..old(self)@.constraints },
                ..old(self)@
            }),
    {
        self.node_mut().set_max_height(height)
    }

    /// Sets the smallest width.
    fn set_min_width(&mut self, width: i32)
        ensures
            final(self)@ == (NodeModel {
                constraints: BoxConstraints { min_width: width, ..old(self)@.constraints },
                ..old(self)@
            }),
    {
        self.node_mut().set_min_width(width)
    }

    /// Sets the smallest height.
    fn set_min_height(&mut self, height: i32)
        ensures
            final(self)@ == (NodeModel {
                constraints: BoxConstraints { min_height: height, ..old(self)@.constraints },
                ..old(self)@
            }),
    {
        self.node_mut().set_min_height(height)
    }

    /// Sets the position, one coordinate after the other.
    fn set_position(&mut self, position: Position)
        ensures
            final(self)@ == (NodeModel { position, ..old(self)@ }),
    {
        self.set_x(position.x);
        self.set_y(position.y);
    }

    /// Sets the horizontal coordinate.
    fn set_x(&mut self, x: i32)
        ensures
            final(self)@ == (NodeModel {
                position: Position { x, ..old(self)@.position },
                ..old(self)@
            }),
    {
        self.node_mut().set_x(x)
    }

    /// Sets the vertical coordinate.
    fn set_y(&mut self, y: i32)
        ensures
            final(self)@ == (NodeModel {
                position: Position { y, ..old(self)@.position },
                ..old(self)@
            }),
    {
        self.node_mut().set_y(y)
    }

    /// A walk over the tree that visits every node once, a node before its
    /// children and the children in their order.
    fn iter(&self) -> (r: LayoutIter<'_>)
        ensures
            r.remaining() == preorder(self@),
    {
        self.node().iter()
    }

    /// The first node of the walk over this tree that carries `id`.
    fn get(&self, id: GlobalId) -> (r: Option<&Node>)
        ensures
            match r {
                Some(node) => first_with(preorder(self@), id) < preorder(self@).len()
                    && node@ == preorder(self@)[first_with(preorder(self@), id)],
                None => first_with(preorder(self@), id) == preorder(self@).len(),
            },
    {
        self.node().get(id)
    }
}

impl Layout for Node {

}

} // verus!
