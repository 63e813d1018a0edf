//! The container of one child.

use vstd::prelude::*;
use crate::constraints::IntrinsicSize;
use crate::layout::interface::Layout;
use crate::layout::model::{NodeKind, NodeModel};
use crate::layout::node::Node;
use crate::layout::sealed::Sealed;
use crate::{AxisAlignment, GlobalId, Padding};

verus! {

/// A layout node that holds exactly one child, inside its padding.
#[derive(Debug)]
pub struct BlockLayout {
    pub(crate) node: Node,
}

impl BlockLayout {
    /// A block around `child`, with nothing else set on it.
    pub fn new<L: Layout>(child: L) -> (r: Self)
        ensures
            r@ == (NodeModel { children: seq![child@], ..NodeModel::fresh(NodeKind::Block) }),
    {
        let node = Node::fresh(NodeKind::Block).with_child(child.take_node());
        BlockLayout { node }
    }

    /// The child of the block. A block is built around its child, and neither
    /// setting anything on it nor any pass takes the child away.
    pub fn child(&self) -> (r: &Node)
        requires
            self@.children.len() > 0,
        ensures
            r@ == self@.children[0],
    {
        &self.node.children[0]
    }

    /// Gives the node the identifier `id`.
    pub fn set_id(self, id: GlobalId) -> (r: Self)
        ensures
            r@ == (NodeModel { id, ..self@ }),
    {
        BlockLayout { node: self.node.with_id(id) }
    }

    /// Gives the node a label.
    pub fn with_label(self, label: &str) -> (r: Self)
        ensures
            r@ == (NodeModel { label: Some(label@), ..self@ }),
    {
        BlockLayout { node: self.node.with_label(label) }
    }

    /// Sets the size that the node asks for.
    pub fn intrinsic_size(self, intrinsic_size: IntrinsicSize) -> (r: Self)
        ensures
            r@ == (NodeModel { intrinsic_size, ..self@ }),
    {
        BlockLayout { node: self.node.with_intrinsic_size(intrinsic_size) }
    }

    /// Sets the padding.
    pub fn padding(self, padding: Padding) -> (r: Self)
        ensures
            r@ == (NodeModel { padding, ..self@ }),
    {
        BlockLayout { node: self.node.with_padding(padding) }
    }

    /// Sets where the children lie along the main axis.
    pub fn main_axis_alignment(self, main_axis_alignment: AxisAlignment) -> (r: Self)
        ensures
            r@ == (NodeModel { main_axis_alignment, ..self@ }),
    {
        BlockLayout { node: self.node.with_main_axis_alignment(main_axis_alignment) }
    }

    /// Sets where each child lies across the main axis.
    pub fn cross_axis_alignment(self, cross_axis_alignment: AxisAlignment) -> (r: Self)
        ensures
            r@ == (NodeModel { cross_axis_alignment, ..self@ }),
    {
        BlockLayout { node: self.node.with_cross_axis_alignment(cross_axis_alignment) }
    }
}

impl Default for BlockLayout {
    /// A block around a fresh leaf.
    fn default() -> (r: Self)
        ensures
            r@ == (NodeModel {
                children: seq![NodeModel::fresh(NodeKind::Empty)],
                ..NodeModel::fresh(NodeKind::Block)
            }),
    {
        BlockLayout::new(Node::fresh(NodeKind::Empty))
    }
}

impl View for BlockLayout {
    type V = NodeModel;

    closed spec fn view(&self) -> NodeModel {
        self.node@
    }
}

impl Sealed for BlockLayout {
    fn node(&self) -> (r: &Node) {
        &self.node
    }

    fn node_mut(&mut self) -> (r: &mut Node) {
        &mut self.node
    }

    fn take_node(self) -> (r: Node) {
        self.node
    }
}

impl Layout for BlockLayout {

}

} // verus!
