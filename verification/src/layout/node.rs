//! The layout node.

use vstd::prelude::*;
use crate::constraints::{BoxConstraints, IntrinsicSize};
use crate::error::LayoutError;
use crate::layout::model::{NodeKind, NodeModel};
use crate::layout::sealed::Sealed;
use crate::position::Bounds;
use crate::units::clamp;
use crate::position::Position;
use crate::size::Size;
use crate::{AxisAlignment, GlobalId, Padding};

verus! {

/// A node of the layout tree. It owns its children; what kind of node it is
/// decides how it sizes and places them.
#[derive(Debug, PartialEq, Eq)]
pub struct Node {
    pub(crate) kind: NodeKind,
    pub(crate) id: GlobalId,
    pub(crate) label: Option<String>,
    pub(crate) size: Size,
    pub(crate) position: Position,
    pub(crate) intrinsic_size: IntrinsicSize,
    pub(crate) constraints: BoxConstraints,
    pub(crate) padding: Padding,
    pub(crate) spacing: u32,
    pub(crate) scroll_offset: i32,
    pub(crate) main_axis_alignment: AxisAlignment,
    pub(crate) cross_axis_alignment: AxisAlignment,
    pub(crate) children: Vec<Node>,
    pub(crate) errors: Vec<LayoutError>,
}

impl View for Node {
    type V = NodeModel;

    open(crate) spec fn view(&self) -> NodeModel {
        self.model()
    }
}

impl Node {
    /// The node as the layout rules see it.
    pub open(crate) spec fn model(self) -> NodeModel
        decreases self,
    {
        NodeModel {
            kind: self.kind,
            id: self.id,
            label: match self.label {
                Some(text) => Some(text@),
                None => None,
            },
            size: self.size,
            position: self.position,
            intrinsic_size: self.intrinsic_size,
            constraints: self.constraints,
            padding: self.padding,
            spacing: self.spacing,
            scroll_offset: self.scroll_offset,
            main_axis_alignment: self.main_axis_alignment,
            cross_axis_alignment: self.cross_axis_alignment,
            children: Seq::new(
                self.children.len() as nat,
                |i: int|
                    if 0 <= i < self.children.len() {
                        self.children[i].model()
                    } else {
                        arbitrary()
                    },
            ),
            errors: self.errors@,
        }
    }
}

impl Node {
    /// Whether two nodes agree in everything but their children.
    pub(crate) open spec fn same_frame(self, other: Node) -> bool {
        &&& self.kind == other.kind
        &&& self.id == other.id
        &&& self.label == other.label
        &&& self.size == other.size
        &&& self.position == other.position
        &&& self.intrinsic_size == other.intrinsic_size
        &&& self.constraints == other.constraints
        &&& self.padding == other.padding
        &&& self.spacing == other.spacing
        &&& self.scroll_offset == other.scroll_offset
        &&& self.main_axis_alignment == other.main_axis_alignment
        &&& self.cross_axis_alignment == other.cross_axis_alignment
        &&& self.errors == other.errors
    }
}

impl Node {
    /// A node of the given kind with nothing set on it and no children.
    pub(crate) fn fresh(kind: NodeKind) -> (r: Node)
        ensures
            r@ == NodeModel::fresh(kind),
    {
        let r = Node {
            kind,
            id: GlobalId::new(0),
            label: None,
            size: Size::new(0, 0),
            position: Position::new(0, 0),
            intrinsic_size: IntrinsicSize::shrink(),
            constraints: BoxConstraints::new(),
            padding: Padding::new(0, 0, 0, 0),
            spacing: 0,
            scroll_offset: 0,
            main_axis_alignment: AxisAlignment::Start,
            cross_axis_alignment: AxisAlignment::Start,
            children: Vec::new(),
            errors: Vec::new(),
        };
        assert(r@.children =~= NodeModel::fresh(kind).children);
        r
    }

    /// Appends `child` to the children of this node.
    pub(crate) fn push_child(&mut self, child: Node)
        ensures
            final(self)@ == (NodeModel { children: old(self)@.children.push(child@), ..old(self)@ }),
    {
        let ghost before = *self;
        self.children.push(child);
        proof {
            assert(self@.children =~= before@.children.push(child@));
        }
    }

    /// Gives the node the identifier `id`.
    pub(crate) fn with_id(self, id: GlobalId) -> (r: Node)
        ensures
            r@ == (NodeModel { id, ..self@ }),
    {
        let mut this = self;
        this.id = id;
        this
    }

    /// Sets the size that the node asks for.
    pub(crate) fn with_intrinsic_size(self, intrinsic_size: IntrinsicSize) -> (r: Node)
        ensures
            r@ == (NodeModel { intrinsic_size, ..self@ }),
    {
        let mut this = self;
        this.intrinsic_size = intrinsic_size;
        this
    }

    /// Sets the padding.
    pub(crate) fn with_padding(self, padding: Padding) -> (r: Node)
        ensures
            r@ == (NodeModel { padding, ..self@ }),
    {
        let mut this = self;
        this.padding = padding;
        this
    }

    /// Sets the gap between consecutive children.
    pub(crate) fn with_spacing(self, spacing: u32) -> (r: Node)
        ensures
            r@ == (NodeModel { spacing, ..self@ }),
    {
        let mut this = self;
        this.spacing = spacing;
        this
    }

    /// Sets where the children lie along the main axis.
    pub(crate) fn with_main_axis_alignment(self, main_axis_alignment: AxisAlignment) -> (r: Node)
        ensures
            r@ == (NodeModel { main_axis_alignment, ..self@ }),
    {
        let mut this = self;
        this.main_axis_alignment = main_axis_alignment;
        this
    }

    /// Sets where each child lies across the main axis.
    pub(crate) fn with_cross_axis_alignment(self, cross_axis_alignment: AxisAlignment) -> (r: Node)
        ensures
            r@ == (NodeModel { cross_axis_alignment, ..self@ }),
    {
        let mut this = self;
        this.cross_axis_alignment = cross_axis_alignment;
        this
    }

    /// Gives the node a label.
    pub(crate) fn with_label(self, label: &str) -> (r: Node)
        ensures
            r@ == (NodeModel { label: Some(label@), ..self@ }),
    {
        let mut this = self;
        this.label = Some(label.to_owned());
        this
    }

    /// Replaces the constraints.
    pub(crate) fn with_constraints(self, constraints: BoxConstraints) -> (r: Node)
        ensures
            r@ == (NodeModel { constraints, ..self@ }),
    {
        let mut this = self;
        this.constraints = constraints;
        this
    }

    /// Appends `child` to the children.
    pub(crate) fn with_child(self, child: Node) -> (r: Node)
        ensures
            r@ == (NodeModel { children: self@.children.push(child@), ..self@ }),
    {
        let mut this = self;
        this.push_child(child);
        this
    }

    /// Appends `children`, in their order, to the children.
    pub(crate) fn with_children<L: Sealed>(self, children: Vec<L>) -> (r: Node)
        ensures
            r@ == (NodeModel {
                children: self@.children + Seq::new(children@.len(), |i: int| children@[i]@),
                ..self@
            }),
    {
        let ghost before = self@;
        let ghost added = Seq::new(children@.len(), |i: int| children@[i]@);
        let mut this = self;
        let mut rest = children;
        let mut turned: Vec<L> = Vec::new();
        while rest.len() > 0
            invariant
                rest@.len() + turned@.len() == children@.len(),
                forall|i: int| 0 <= i < rest@.len() ==> rest@[i] == children@[i],
                forall|i: int|
                    0 <= i < turned@.len() ==> turned@[i] == children@[children@.len() - 1 - i],
            decreases rest.len(),
        {
            match rest.pop() {
                Some(child) => {
                    turned.push(child);
                },
                None => {},
            }
        }
        while turned.len() > 0
            invariant
                turned@.len() <= children@.len(),
                forall|i: int|
                    0 <= i < turned@.len() ==> turned@[i] == children@[children@.len() - 1 - i],
                added == Seq::new(children@.len(), |i: int| children@[i]@),
                this@ == (NodeModel {
                    children: before.children + added.take(children@.len() - turned@.len()),
                    ..before
                }),
            decreases turned.len(),
        {
            let ghost done = children@.len() - turned@.len();
            match turned.pop() {
                Some(child) => {
                    this.push_child(child.take_node());
                    assert(this@.children =~= before.children + added.take(done + 1));
                },
                None => {},
            }
        }
        assert(added.take(children@.len() as int) =~= added);
        this
    }

    /// The kind of the node.
    pub fn kind(&self) -> (r: NodeKind)
        ensures
            r == self@.kind,
    {
        self.kind
    }

    /// The name of the node: its label, or the name of its kind.
    pub fn label(&self) -> (r: String)
        ensures
            r@ == self@.label_text(),
    {
        match &self.label {
            Some(text) => text.clone(),
            None => match self.kind {
                NodeKind::Empty => "EmptyLayout".to_owned(),
                NodeKind::Block => "BlockLayout".to_owned(),
                NodeKind::Horizontal => "HorizontalLayout".to_owned(),
                NodeKind::Vertical => "VerticalLayout".to_owned(),
            },
        }
    }

    /// The identifier of the node.
    pub fn id(&self) -> (r: GlobalId)
        ensures
            r == self@.id,
    {
        self.id
    }

    /// The constraints of the node.
    pub fn constraints(&self) -> (r: BoxConstraints)
        ensures
            r == self@.constraints,
    {
        self.constraints
    }

    /// The size that the node asks for.
    pub fn get_intrinsic_size(&self) -> (r: IntrinsicSize)
        ensures
            r == self@.intrinsic_size,
    {
        self.intrinsic_size
    }

    /// The size of the node.
    pub fn size(&self) -> (r: Size)
        ensures
            r == self@.size,
    {
        self.size
    }

    /// The position of the node.
    pub fn position(&self) -> (r: Position)
        ensures
            r == self@.position,
    {
        self.position
    }

    /// The box that the node covers.
    pub fn bounds(&self) -> (r: Bounds)
        ensures
            r.x@ == seq![self@.position.x, clamp(self@.position.x + self@.size.width)],
            r.y@ == seq![self@.position.y, clamp(self@.position.y + self@.size.height)],
    {
        Bounds::new(self.position, self.size)
    }

    /// The children of the node, in their order.
    pub fn children(&self) -> (r: &[Node])
        ensures
            r@.len() == self@.children.len(),
            forall|i: int| 0 <= i < r@.len() ==> (#[trigger] r@[i])@ == self@.children[i],
    {
        self.children.as_slice()
    }

    /// The findings that the passes have recorded on this node and that have
    /// not been collected yet.
    pub fn errors(&self) -> (r: &[LayoutError])
        ensures
            r@ == self@.errors,
    {
        self.errors.as_slice()
    }

    /// Sets the largest width.
    pub fn set_max_width(&mut self, width: i32)
        ensures
            final(self)@ == (NodeModel {
                constraints: BoxConstraints { max_width: Some(width), ..old(self)@.constraints },
                ..old(self)@
            }),
    {
        self.constraints.max_width = Some(width);
    }

    /// Sets the largest height.
    pub fn set_max_height(&mut self, height: i32)
        ensures
            final(self)@ == (NodeModel {
                constraints: BoxConstraints { max_height: height, ..old(self)@.constraints },
                ..old(self)@
            }),
    {
        self.constraints.max_height = height;
    }

    /// Sets the smallest width.
    pub fn set_min_width(&mut self, width: i32)
        ensures
            final(self)@ == (NodeModel {
                constraints: BoxConstraints { min_width: width, ..old(self)@.constraints },
                ..old(self)@
            }),
    {
        self.constraints.min_width = width;
    }

    /// Sets the smallest height.
    pub fn set_min_height(&mut self, height: i32)
        ensures
            final(self)@ == (NodeModel {
                constraints: BoxConstraints { min_height: height, ..old(self)@.constraints },
                ..old(self)@
            }),
    {
        self.constraints.min_height = height;
    }

    /// Sets the horizontal coordinate.
    pub fn set_x(&mut self, x: i32)
        ensures
            final(self)@ == (NodeModel {
                position: Position { x, ..old(self)@.position },
                ..old(self)@
            }),
    {
        self.position.x = x;
    }

    /// Sets the vertical coordinate.
    pub fn set_y(&mut self, y: i32)
        ensures
            final(self)@ == (NodeModel {
                position: Position { y, ..old(self)@.position },
                ..old(self)@
            }),
    {
        self.position.y = y;
    }

    /// Sets the position, one coordinate after the other.
    pub fn set_position(&mut self, position: Position)
        ensures
            final(self)@ == (NodeModel { position, ..old(self)@ }),
    {
        self.set_x(position.x);
        self.set_y(position.y);
    }
}

impl Clone for Node {
    /// A copy of the whole tree below and including this node.
    fn clone(&self) -> (r: Node)
        ensures
            r@ == self@,
        decreases self@.children,
    {
        let count = self.children.len();
        let mut children: Vec<Node> = Vec::new();
        let mut i: usize = 0;
        while i < count
            invariant
                0 <= i <= count,
                count == self.children.len(),
                self@.children.len() == count,
                forall|j: int| 0 <= j < count ==> #[trigger] self@.children[j] == self.children[j]@,
                children.len() == i,
                forall|j: int| 0 <= j < i ==> (#[trigger] children[j])@ == self@.children[j],
            decreases count - i,
        {
            assert(self@.children[i as int] == self.children[i as int]@);
            let child = self.children[i].clone();
            children.push(child);
            i += 1;
        }
        let mut errors: Vec<LayoutError> = Vec::new();
        let mut k: usize = 0;
        while k < self.errors.len()
            invariant
                0 <= k <= self.errors.len(),
                errors@ == self.errors@.take(k as int),
            decreases self.errors.len() - k,
        {
            errors.push(self.errors[k]);
            k += 1;
        }
        assert(self.errors@.take(k as int) =~= self.errors@);
        let r = Node {
            kind: self.kind,
            id: self.id,
            label: match &self.label {
                Some(text) => Some(text.clone()),
                None => None,
            },
            size: self.size,
            position: self.position,
            intrinsic_size: self.intrinsic_size,
            constraints: self.constraints,
            padding: self.padding,
            spacing: self.spacing,
            scroll_offset: self.scroll_offset,
            main_axis_alignment: self.main_axis_alignment,
            cross_axis_alignment: self.cross_axis_alignment,
            children,
            errors,
        };
        proof {
            assert(r@.children =~= self@.children);
        }
        r
    }
}

} // verus!
