//! Walking the tree, and finding a node by its identifier.

use vstd::prelude::*;
use crate::layout::model::NodeModel;
use crate::layout::node::Node;
use crate::GlobalId;

verus! {

/// The nodes of the tree below and including `n` in the order of a walk that
/// visits a node before its children, and the children in their order.
pub open spec fn preorder(n: NodeModel) -> Seq<NodeModel>
    decreases n, 1int,
{
    seq![n] + preorder_from(n, 0)
}

/// The nodes of the subtrees below `n` from child `from` on, in the order of
/// the walk.
pub open spec fn preorder_from(n: NodeModel, from: int) -> Seq<NodeModel>
    decreases n, 0int, n.children.len() - from,
{
    if from < 0 || from >= n.children.len() {
        Seq::empty()
    } else {
        preorder(n.children[from]) + preorder_from(n, from + 1)
    }
}

/// The nodes that a walk still has to visit when `stack` holds the roots of
/// the subtrees that it has not entered, the next one at the end.
pub open spec fn pending(stack: Seq<NodeModel>) -> Seq<NodeModel>
    decreases stack.len(),
{
    if stack.len() == 0 {
        Seq::empty()
    } else {
        preorder(stack.last()) + pending(stack.drop_last())
    }
}

/// The position of the first node among `nodes` that carries `id`, and the
/// number of nodes if none does.
pub open spec fn first_with(nodes: Seq<NodeModel>, id: GlobalId) -> int
    decreases nodes.len(),
{
    if nodes.len() == 0 {
        0
    } else if nodes[0].id == id {
        0
    } else {
        1 + first_with(nodes.drop_first(), id)
    }
}

/// Nothing before the first node that carries `id` carries it, and that node
/// does.
pub proof fn first_with_is_first(nodes: Seq<NodeModel>, id: GlobalId)
    ensures
        0 <= first_with(nodes, id) <= nodes.len(),
        forall|i: int| 0 <= i < first_with(nodes, id) ==> (#[trigger] nodes[i]).id != id,
        first_with(nodes, id) < nodes.len() ==> nodes[first_with(nodes, id)].id == id,
    decreases nodes.len(),
{
    if nodes.len() > 0 && nodes[0].id != id {
        let rest = nodes.drop_first();
        first_with_is_first(rest, id);
        assert forall|i: int| 0 <= i < first_with(nodes, id) implies (#[trigger] nodes[i]).id
            != id by {
            if i > 0 {
                assert(nodes[i] == rest[i - 1]);
            }
        }
    }
}

/// A walk over a tree that visits every node once, a node before its
/// children and the children in their order.
pub struct LayoutIter<'a> {
    pub(crate) stack: Vec<&'a Node>,
}

impl<'a> LayoutIter<'a> {
    /// The models of the nodes on the stack.
    pub(crate) open spec fn roots(self) -> Seq<NodeModel> {
        Seq::new(self.stack@.len(), |i: int| self.stack@[i]@)
    }

    /// The nodes that the walk has not visited yet, in the order in which it
    /// will visit them.
    pub closed spec fn remaining(self) -> Seq<NodeModel> {
        pending(self.roots())
    }

    /// A walk over the tree below and including `root`.
    pub fn new(root: &'a Node) -> (r: LayoutIter<'a>)
        ensures
            r.remaining() == preorder(root@),
    {
        let mut stack: Vec<&'a Node> = Vec::new();
        stack.push(root);
        let r = LayoutIter { stack };
        proof {
            assert(pending(r.roots().drop_last()) =~= Seq::<NodeModel>::empty());
        }
        r
    }

    /// The next node of the walk, if there is one left.
    pub fn next(&mut self) -> (r: Option<&'a Node>)
        ensures
            match r {
                Some(node) => old(self).remaining().len() > 0 && node@ == old(self).remaining()[0]
                    && final(self).remaining() == old(self).remaining().drop_first(),
                None => old(self).remaining().len() == 0 && final(self).remaining().len() == 0,
            },
    {
        let ghost before = self.roots();
        match self.stack.pop() {
            None => {
                None
            },
            Some(node) => {
                let ghost rest = self.roots();
                proof {
                    assert(before.drop_last() =~= rest);
                }
                let count = node.children.len();
                let mut i: usize = count;
                while i > 0
                    invariant
                        0 <= i <= count,
                        count == node.children.len(),
                        node@.children.len() == count,
                        forall|j: int|
                            0 <= j < count ==> #[trigger] node@.children[j] == node.children[j]@,
                        pending(self.roots()) == preorder_from(node@, i as int) + pending(rest),
                    decreases i,
                {
                    let ghost shorter = self.roots();
                    i -= 1;
                    self.stack.push(&node.children[i]);
                    proof {
                        assert(self.roots().drop_last() =~= shorter);
                    }
                }
                Some(node)
            },
        }
    }
}

impl Node {
    /// A walk over the tree below and including this node.
    pub fn iter(&self) -> (r: LayoutIter<'_>)
        ensures
            r.remaining() == preorder(self@),
    {
        LayoutIter::new(self)
    }

    /// The first node of the walk over this tree that carries `id`.
    pub fn get(&self, id: GlobalId) -> (r: Option<&Node>)
        ensures
            match r {
                Some(node) => first_with(preorder(self@), id) < preorder(self@).len() && node@
                    == preorder(self@)[first_with(preorder(self@), id)],
                None => first_with(preorder(self@), id) == preorder(self@).len(),
            },
    {
        let mut walk = self.iter();
        let ghost all = preorder(self@);
        let ghost mut seen: int = 0;
        loop
            invariant
                all == preorder(self@),
                0 <= seen <= all.len(),
                walk.remaining() == all.skip(seen),
                first_with(all, id) == seen + first_with(all.skip(seen), id),
            decreases all.len() - seen,
        {
            match walk.next() {
                None => {
                    return None;
                },
                Some(node) => {
                    if node.id == id {
                        return Some(node);
                    }
                    proof {
                        seen = seen + 1;
                    }
                },
            }
        }
    }
}

} // verus!
