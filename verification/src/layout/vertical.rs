//! The column.

use vstd::prelude::*;
use crate::constraints::{BoxConstraints, IntrinsicSize};
use crate::error::{LayoutError, OverflowAxis};
use crate::layout::interface::Layout;
use crate::layout::model::{NodeKind, NodeModel};
use crate::layout::node::Node;
use crate::layout::sealed::Sealed;
use crate::layout::sizing::recorded;
use crate::units::{clamp, narrow};
use crate::{AxisAlignment, GlobalId, Padding};

verus! {

/// A layout node that arranges its children from top to bottom. Its children
/// can be scrolled along the column.
#[derive(Debug)]
pub struct VerticalLayout {
    pub(crate) node: Node,
}

impl VerticalLayout {
    /// A column without children, with nothing set on it.
    pub fn new() -> (r: Self)
        ensures
            r@ == NodeModel::fresh(NodeKind::Vertical),
    {
        VerticalLayout { node: Node::fresh(NodeKind::Vertical) }
    }

    /// Gives the node the identifier `id`.
    pub fn set_id(self, id: GlobalId) -> (r: Self)
        ensures
            r@ == (NodeModel { id, ..self@ }),
    {
        VerticalLayout { node: self.node.with_id(id) }
    }

    /// Gives the node a label.
    pub fn with_label(self, label: &str) -> (r: Self)
        ensures
            r@ == (NodeModel { label: Some(label@), ..self@ }),
    {
        VerticalLayout { node: self.node.with_label(label) }
    }

    /// Appends `child` to the children.
    pub fn add_child<L: Layout>(self, child: L) -> (r: Self)
        ensures
            r@ == (NodeModel { children: self@.children.push(child@), ..self@ }),
    {
        VerticalLayout { node: self.node.with_child(child.take_node()) }
    }

    /// Appends `children`, in their order, to the children.
    pub fn add_children<L: Layout>(self, children: Vec<L>) -> (r: Self)
        ensures
            r@ == (NodeModel {
                children: self@.children + Seq::new(children@.len(), |i: int| children@[i]@),
                ..self@
            }),
    {
        VerticalLayout { node: self.node.with_children(children) }
    }

    /// Sets where the children lie along the main axis.
    pub fn main_axis_alignment(self, main_axis_alignment: AxisAlignment) -> (r: Self)
        ensures
            r@ == (NodeModel { main_axis_alignment, ..self@ }),
    {
        VerticalLayout { node: self.node.with_main_axis_alignment(main_axis_alignment) }
    }

    /// Sets where each child lies across the main axis.
    pub fn cross_axis_alignment(self, cross_axis_alignment: AxisAlignment) -> (r: Self)
        ensures
            r@ == (NodeModel { cross_axis_alignment, ..self@ }),
    {
        VerticalLayout { node: self.node.with_cross_axis_alignment(cross_axis_alignment) }
    }

    /// Sets the padding.
    pub fn padding(self, padding: Padding) -> (r: Self)
        ensures
            r@ == (NodeModel { padding, ..self@ }),
    {
        VerticalLayout { node: self.node.with_padding(padding) }
    }

    /// Sets the gap between consecutive children.
    pub fn spacing(self, spacing: u32) -> (r: Self)
        ensures
            r@ == (NodeModel { spacing, ..self@ }),
    {
        VerticalLayout { node: self.node.with_spacing(spacing) }
    }

    /// Whether an overflow on either axis is recorded on the column.
    pub fn overflow(&self) -> (r: bool)
        ensures
            r == (self@.errors.contains(
                LayoutError::Overflow { id: self@.id, axis: OverflowAxis::MainAxis },
            ) || self@.errors.contains(
                LayoutError::Overflow { id: self@.id, axis: OverflowAxis::CrossAxis },
            )),
    {
        self.main_axis_overflow() || self.cross_axis_overflow()
    }

    /// Whether an overflow along the column is recorded on it.
    pub fn main_axis_overflow(&self) -> (r: bool)
        ensures
            r == self@.errors.contains(
                LayoutError::Overflow { id: self@.id, axis: OverflowAxis::MainAxis },
            ),
    {
        recorded(&self.node.errors, LayoutError::overflow(self.node.id, OverflowAxis::MainAxis))
    }

    /// Whether an overflow across the column is recorded on it.
    pub fn cross_axis_overflow(&self) -> (r: bool)
        ensures
            r == self@.errors.contains(
                LayoutError::Overflow { id: self@.id, axis: OverflowAxis::CrossAxis },
            ),
    {
        recorded(&self.node.errors, LayoutError::overflow(self.node.id, OverflowAxis::CrossAxis))
    }

    /// Moves the children along the column by `offset` more than they are
    /// moved already. The offset stays until it is changed again: no pass
    /// resets it.
    pub fn scroll(&mut self, offset: i32)
        ensures
            final(self)@ == (NodeModel {
                scroll_offset: clamp(old(self)@.scroll_offset + offset),
                ..old(self)@
            }),
    {
        self.node.scroll_offset = narrow(self.node.scroll_offset as i128 + offset as i128);
    }

    /// Sets the size that the node asks for.
    pub fn intrinsic_size(self, intrinsic_size: IntrinsicSize) -> (r: Self)
        ensures
            r@ == (NodeModel { intrinsic_size, ..self@ }),
    {
        VerticalLayout { node: self.node.with_intrinsic_size(intrinsic_size) }
    }

    /// Sets the largest width.
    pub fn max_width(self, max_width: i32) -> (r: Self)
        ensures
            r@ == (NodeModel {
                constraints: BoxConstraints { max_width: Some(max_width), ..self@.constraints },
                ..self@
            }),
    {
        let constraints = BoxConstraints { max_width: Some(max_width), ..self.node.constraints };
        VerticalLayout { node: self.node.with_constraints(constraints) }
    }

    /// Sets the largest height.
    pub fn max_height(self, max_height: i32) -> (r: Self)
        ensures
            r@ == (NodeModel {
                constraints: BoxConstraints { max_height: max_height, ..self@.constraints },
                ..self@
            }),
    {
        let constraints = BoxConstraints { max_height: max_height, ..self.node.constraints };
        VerticalLayout { node: self.node.with_constraints(constraints) }
    }

    /// Sets the smallest width.
    pub fn min_width(self, min_width: i32) -> (r: Self)
        ensures
            r@ == (NodeModel {
                constraints: BoxConstraints { min_width: min_width, ..self@.constraints },
                ..self@
            }),
    {
        let constraints = BoxConstraints { min_width: min_width, ..self.node.constraints };
        VerticalLayout { node: self.node.with_constraints(constraints) }
    }

    /// Sets the smallest height.
    pub fn min_height(self, min_height: i32) -> (r: Self)
        ensures
            r@ == (NodeModel {
                constraints: BoxConstraints { min_height: min_height, ..self@.constraints },
                ..self@
            }),
    {
        let constraints = BoxConstraints { min_height: min_height, ..self.node.constraints };
        VerticalLayout { node: self.node.with_constraints(constraints) }
    }
}

impl Default for VerticalLayout {
    fn default() -> (r: Self)
        ensures
            r@ == NodeModel::fresh(NodeKind::Vertical),
    {
        VerticalLayout::new()
    }
}

impl View for VerticalLayout {
    type V = NodeModel;

    closed spec fn view(&self) -> NodeModel {
        self.node@
    }
}

impl Sealed for VerticalLayout {
    fn node(&self) -> (r: &Node) {
        &self.node
    }

    fn node_mut(&mut self) -> (r: &mut Node) {
        &mut self.node
    }

    fn take_node(self) -> (r: Node) {
        self.node
    }
}

impl Layout for VerticalLayout {

}

} // verus!
