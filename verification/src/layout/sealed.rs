//! What every layout type is underneath.

use vstd::prelude::*;
use crate::layout::model::NodeModel;
use crate::layout::node::Node;

verus! {

/// A type that stands for a layout node; its view is the tree below and
/// including that node. Only the types of this crate are such.
pub trait Sealed: View<V = NodeModel> + Sized {
    /// The node underneath.
    fn node(&self) -> (r: &Node)
        ensures
            r@ == self@,
    ;

    /// The node underneath, for the passes to work on.
    fn node_mut(&mut self) -> (r: &mut Node)
        ensures
            (*r)@ == old(self)@,
            final(self)@ == (*final(r))@,
    ;

    /// The node underneath, to become the child of another node.
    fn take_node(self) -> (r: Node)
        ensures
            r@ == self@,
    ;
}

impl Sealed for Node {
    fn node(&self) -> (r: &Node) {
        self
    }

    fn node_mut(&mut self) -> (r: &mut Node) {
        self
    }

    fn take_node(self) -> (r: Node) {
        self
    }
}

} // verus!
