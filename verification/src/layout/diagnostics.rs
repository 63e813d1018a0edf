//! Handing out and discarding the findings recorded in a tree.

use vstd::prelude::*;
use crate::error::LayoutError;
use crate::layout::model::{all_errors, cleared, errors_below};
use crate::layout::node::Node;

verus! {

impl Node {
    /// Takes all findings out of the tree below and including this node:
    /// those of a node before those of its children, the children in their
    /// order.
    pub fn collect_errors(&mut self) -> (r: Vec<LayoutError>)
        ensures
            r@ == all_errors(old(self)@),
            final(self)@ == cleared(old(self)@),
        decreases old(self)@.children,
    {
        let count = self.children.len();
        let ghost own = self@;
        let ghost goal = cleared(own);
        let mut out: Vec<LayoutError> = Vec::new();
        core::mem::swap(&mut out, &mut self.errors);
        let ghost emptied = *self;
        let mut i: usize = 0;
        while i < count
            invariant
                0 <= i <= count,
                count == old(self).children.len(),
                self.children.len() == count,
                self.same_frame(emptied),
                own == old(self)@,
                own.children.len() == count,
                goal == cleared(own),
                forall|j: int| 0 <= j < count ==> #[trigger] own.children[j] == old(self).children[j]@,
                forall|j: int| 0 <= j < i ==> (#[trigger] self.children[j])@ == goal.children[j],
                forall|j: int| i <= j < count ==> #[trigger] self.children[j] == old(self).children[j],
                out@ == own.errors + errors_below(own, i as int),
            decreases count - i,
        {
            assert(own.children[i as int] == old(self).children[i as int]@);
            let child = &mut self.children[i];
            let mut below = child.collect_errors();
            out.append(&mut below);
            i += 1;
        }
        proof {
            assert(self@.children =~= goal.children);
        }
        out
    }

    /// Discards all findings in the tree below and including this node.
    pub fn clear_errors(&mut self)
        ensures
            final(self)@ == cleared(old(self)@),
        decreases old(self)@.children,
    {
        let count = self.children.len();
        let ghost own = self@;
        let ghost goal = cleared(own);
        self.errors.clear();
        let ghost emptied = *self;
        let mut i: usize = 0;
        while i < count
            invariant
                0 <= i <= count,
                count == old(self).children.len(),
                self.children.len() == count,
                self.same_frame(emptied),
                own == old(self)@,
                own.children.len() == count,
                goal == cleared(own),
                forall|j: int| 0 <= j < count ==> #[trigger] own.children[j] == old(self).children[j]@,
                forall|j: int| 0 <= j < i ==> (#[trigger] self.children[j])@ == goal.children[j],
                forall|j: int| i <= j < count ==> #[trigger] self.children[j] == old(self).children[j],
            decreases count - i,
        {
            assert(own.children[i as int] == old(self).children[i as int]@);
            let child = &mut self.children[i];
            child.clear_errors();
            i += 1;
        }
        proof {
            assert(self@.children =~= goal.children);
        }
    }
}

} // verus!
