//! The row.

use vstd::prelude::*;
use crate::constraints::IntrinsicSize;
use crate::layout::interface::Layout;
use crate::layout::model::{NodeKind, NodeModel};
use crate::layout::node::Node;
use crate::layout::sealed::Sealed;
use crate::{AxisAlignment, GlobalId, Padding};

verus! {

/// A layout node that arranges its children from left to right.
#[derive(Debug)]
pub struct HorizontalLayout {
    pub(crate) node: Node,
}

impl HorizontalLayout {
    /// A row without children, with nothing set on it.
    pub fn new() -> (r: Self)
        ensures
            r@ == NodeModel::fresh(NodeKind::Horizontal),
    {
        HorizontalLayout { node: Node::fresh(NodeKind::Horizontal) }
    }

    /// Gives the node the identifier `id`.
    pub fn set_id(self, id: GlobalId) -> (r: Self)
        ensures
            r@ == (NodeModel { id, ..self@ }),
    {
        HorizontalLayout { node: self.node.with_id(id) }
    }

    /// Gives the node a label.
    pub fn with_label(self, label: &str) -> (r: Self)
        ensures
            r@ == (NodeModel { label: Some(label@), ..self@ }),
    {
        HorizontalLayout { node: self.node.with_label(label) }
    }

    /// Appends `child` to the children.
    pub fn add_child<L: Layout>(self, child: L) -> (r: Self)
        ensures
            r@ == (NodeModel { children: self@.children.push(child@), ..self@ }),
    {
        HorizontalLayout { node: self.node.with_child(child.take_node()) }
    }

    /// Appends `children`, in their order, to the children.
    pub fn add_children<L: Layout>(self, children: Vec<L>) -> (r: Self)
        ensures
            r@ == (NodeModel {
                children: self@.children + Seq::new(children@.len(), |i: int| children@[i]@),
                ..self@
            }),
    {
        HorizontalLayout { node: self.node.with_children(children) }
    }

    /// Sets the size that the node asks for.
    pub fn intrinsic_size(self, intrinsic_size: IntrinsicSize) -> (r: Self)
        ensures
            r@ == (NodeModel { intrinsic_size, ..self@ }),
    {
        HorizontalLayout { node: self.node.with_intrinsic_size(intrinsic_size) }
    }

    /// Sets the padding.
    pub fn padding(self, padding: Padding) -> (r: Self)
        ensures
            r@ == (NodeModel { padding, ..self@ }),
    {
        HorizontalLayout { node: self.node.with_padding(padding) }
    }

    /// Sets the gap between consecutive children.
    pub fn spacing(self, spacing: u32) -> (r: Self)
        ensures
            r@ == (NodeModel { spacing, ..self@ }),
    {
        HorizontalLayout { node: self.node.with_spacing(spacing) }
    }

    /// Sets where the children lie along the main axis.
    pub fn main_axis_alignment(self, main_axis_alignment: AxisAlignment) -> (r: Self)
        ensures
            r@ == (NodeModel { main_axis_alignment, ..self@ }),
    {
        HorizontalLayout { node: self.node.with_main_axis_alignment(main_axis_alignment) }
    }

    /// Sets where each child lies across the main axis.
    pub fn cross_axis_alignment(self, cross_axis_alignment: AxisAlignment) -> (r: Self)
        ensures
            r@ == (NodeModel { cross_axis_alignment, ..self@ }),
    {
        HorizontalLayout { node: self.node.with_cross_axis_alignment(cross_axis_alignment) }
    }
}

impl Default for HorizontalLayout {
    fn default() -> (r: Self)
        ensures
            r@ == NodeModel::fresh(NodeKind::Horizontal),
    {
        HorizontalLayout::new()
    }
}

impl View for HorizontalLayout {
    type V = NodeModel;

    closed spec fn view(&self) -> NodeModel {
        self.node@
    }
}

impl Sealed for HorizontalLayout {
    fn node(&self) -> (r: &Node) {
        &self.node
    }

    fn node_mut(&mut self) -> (r: &mut Node) {
        &mut self.node
    }

    fn take_node(self) -> (r: Node) {
        self.node
    }
}

impl Layout for HorizontalLayout {

}

} // verus!
