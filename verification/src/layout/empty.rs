//! The leaf.

use vstd::prelude::*;
use crate::constraints::{BoxConstraints, IntrinsicSize};
use crate::layout::interface::Layout;
use crate::layout::model::{NodeKind, NodeModel};
use crate::layout::node::Node;
use crate::layout::sealed::Sealed;
use crate::GlobalId;

verus! {

/// A layout node without children.
#[derive(Debug, PartialEq)]
pub struct EmptyLayout {
    pub(crate) node: Node,
}

impl EmptyLayout {
    /// A leaf that shrinks, with nothing set on it.
    pub fn new() -> (r: Self)
        ensures
            r@ == NodeModel::fresh(NodeKind::Empty),
    {
        EmptyLayout { node: Node::fresh(NodeKind::Empty) }
    }

    /// Gives the node the identifier `id`.
    pub fn set_id(self, id: GlobalId) -> (r: Self)
        ensures
            r@ == (NodeModel { id, ..self@ }),
    {
        EmptyLayout { node: self.node.with_id(id) }
    }

    /// Gives the node a label.
    pub fn with_label(self, label: &str) -> (r: Self)
        ensures
            r@ == (NodeModel { label: Some(label@), ..self@ }),
    {
        EmptyLayout { node: self.node.with_label(label) }
    }

    /// Sets the size that the node asks for.
    pub fn intrinsic_size(self, intrinsic_size: IntrinsicSize) -> (r: Self)
        ensures
            r@ == (NodeModel { intrinsic_size, ..self@ }),
    {
        EmptyLayout { node: self.node.with_intrinsic_size(intrinsic_size) }
    }

    /// Sets the largest width.
    pub fn max_width(self, max_width: i32) -> (r: Self)
        ensures
            r@ == (NodeModel {
                constraints: BoxConstraints { max_width: Some(max_width), ..self@.constraints },
                ..self@
            }),
    {
        let constraints = BoxConstraints { max_width: Some(max_width), ..self.node.constraints };
        EmptyLayout { node: self.node.with_constraints(constraints) }
    }

    /// Sets the largest height.
    pub fn max_height(self, max_height: i32) -> (r: Self)
        ensures
            r@ == (NodeModel {
                constraints: BoxConstraints { max_height: max_height, ..self@.constraints },
                ..self@
            }),
    {
        let constraints = BoxConstraints { max_height: max_height, ..self.node.constraints };
        EmptyLayout { node: self.node.with_constraints(constraints) }
    }

    /// Sets the smallest width.
    pub fn min_width(self, min_width: i32) -> (r: Self)
        ensures
            r@ == (NodeModel {
                constraints: BoxConstraints { min_width: min_width, ..self@.constraints },
                ..self@
            }),
    {
        let constraints = BoxConstraints { min_width: min_width, ..self.node.constraints };
        EmptyLayout { node: self.node.with_constraints(constraints) }
    }

    /// Sets the smallest height.
    pub fn min_height(self, min_height: i32) -> (r: Self)
        ensures
            r@ == (NodeModel {
                constraints: BoxConstraints { min_height: min_height, ..self@.constraints },
                ..self@
            }),
    {
        let constraints = BoxConstraints { min_height: min_height, ..self.node.constraints };
        EmptyLayout { node: self.node.with_constraints(constraints) }
    }
}

impl Default for EmptyLayout {
    fn default() -> (r: Self)
        ensures
            r@ == NodeModel::fresh(NodeKind::Empty),
    {
        EmptyLayout::new()
    }
}

impl Clone for EmptyLayout {
    fn clone(&self) -> (r: Self)
        ensures
            r@ == self@,
    {
        EmptyLayout { node: self.node.clone() }
    }
}

impl View for EmptyLayout {
    type V = NodeModel;

    closed spec fn view(&self) -> NodeModel {
        self.node@
    }
}

impl Sealed for EmptyLayout {
    fn node(&self) -> (r: &Node) {
        &self.node
    }

    fn node_mut(&mut self) -> (r: &mut Node) {
        &mut self.node
    }

    fn take_node(self) -> (r: Node) {
        self.node
    }
}

impl Layout for EmptyLayout {

}

} // verus!
