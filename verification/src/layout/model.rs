//! The layout rules, stated on a mathematical model of the tree.
//!
//! A [`NodeModel`] is what a node is to the rules: its kind, what it was
//! configured with, the state that the passes work on, and its children as a
//! sequence. Each pass of the solver is a function from trees to trees here,
//! and the executable passes are proved to compute exactly these functions.

use vstd::prelude::*;
use crate::axis::Axis;
use crate::constraints::{BoxConstraints, BoxSizing, IntrinsicSize};
use crate::error::{LayoutError, OverflowAxis};
use crate::position::Position;
use crate::size::Size;
use crate::units::{clamp, flex_share, gap_total, highest, total};
use crate::{AxisAlignment, GlobalId, Padding};

verus! {

/// The four kinds of layout node.
#[derive(Debug, Clone, Copy, PartialEq, Eq, Structural)]
pub enum NodeKind {
    /// A leaf: no children.
    Empty,
    /// A container of exactly one child.
    Block,
    /// A container that arranges its children from left to right.
    Horizontal,
    /// A container that arranges its children from top to bottom.
    Vertical,
}

impl NodeKind {
    pub open spec fn spec_main_axis(self) -> Axis {
        match self {
            NodeKind::Vertical => Axis::Vertical,
            _ => Axis::Horizontal,
        }
    }

    /// The axis along which a node of this kind arranges its children. By
    /// convention it is the horizontal one for a block.
    #[verifier::when_used_as_spec(spec_main_axis)]
    pub fn main_axis(self) -> (r: Axis)
        ensures
            r == self.spec_main_axis(),
    {
        match self {
            NodeKind::Vertical => Axis::Vertical,
            _ => Axis::Horizontal,
        }
    }

    pub open spec fn spec_is_flow(self) -> bool {
        self == NodeKind::Horizontal || self == NodeKind::Vertical
    }

    /// Whether a node of this kind arranges any number of children in a row
    /// or column.
    #[verifier::when_used_as_spec(spec_is_flow)]
    pub fn is_flow(self) -> (r: bool)
        ensures
            r == self.spec_is_flow(),
    {
        match self {
            NodeKind::Horizontal => true,
            NodeKind::Vertical => true,
            _ => false,
        }
    }
}

/// A layout node as the rules see it.
pub struct NodeModel {
    pub kind: NodeKind,
    pub id: GlobalId,
    pub label: Option<Seq<char>>,
    pub size: Size,
    pub position: Position,
    pub intrinsic_size: IntrinsicSize,
    pub constraints: BoxConstraints,
    pub padding: Padding,
    pub spacing: u32,
    pub scroll_offset: i32,
    pub main_axis_alignment: AxisAlignment,
    pub cross_axis_alignment: AxisAlignment,
    pub children: Seq<NodeModel>,
    pub errors: Seq<LayoutError>,
}

impl NodeModel {
    /// A node of the given kind as it is when nothing has been set on it and
    /// no pass has run: it shrinks, lies at the origin, and has no children.
    pub open spec fn fresh(kind: NodeKind) -> NodeModel {
        NodeModel {
            kind,
            id: GlobalId(0),
            label: None,
            size: Size { width: 0, height: 0 },
            position: Position { x: 0, y: 0 },
            intrinsic_size: IntrinsicSize { width: BoxSizing::Shrink, height: BoxSizing::Shrink },
            constraints: BoxConstraints {
                max_width: None,
                max_height: 0,
                min_height: 0,
                min_width: 0,
            },
            padding: Padding { left: 0, right: 0, top: 0, bottom: 0 },
            spacing: 0,
            scroll_offset: 0,
            main_axis_alignment: AxisAlignment::Start,
            cross_axis_alignment: AxisAlignment::Start,
            children: Seq::empty(),
            errors: Seq::empty(),
        }
    }

    /// The name of the node: its label, or the name of its kind.
    pub open spec fn label_text(self) -> Seq<char> {
        match self.label {
            Some(text) => text,
            None => match self.kind {
                NodeKind::Empty => "EmptyLayout"@,
                NodeKind::Block => "BlockLayout"@,
                NodeKind::Horizontal => "HorizontalLayout"@,
                NodeKind::Vertical => "VerticalLayout"@,
            },
        }
    }

    /// The minimum extents of the children along `axis`, in order.
    pub open spec fn child_mins(self, axis: Axis) -> Seq<int> {
        Seq::new(self.children.len(), |i: int| self.children[i].constraints.min_along(axis) as int)
    }

    /// The final extents of the children along `axis`, in order.
    pub open spec fn child_sizes(self, axis: Axis) -> Seq<int> {
        Seq::new(self.children.len(), |i: int| self.children[i].size.along(axis) as int)
    }

    /// The scroll offset that applies to the children: that of a vertical
    /// container, and none for any other node.
    pub open spec fn scroll(self) -> int {
        if self.kind == NodeKind::Vertical {
            self.scroll_offset as int
        } else {
            0
        }
    }
}

// ---------------------------------------------------------------------------
// Minimum constraints, bottom-up

/// The extent along `axis` that the content of `n` needs at least, given the
/// solved minimum constraints of its children.
///
/// A leaf keeps the minimum that it has. A block needs its child and its
/// padding. A row or column needs, along its main axis, all children, the
/// gaps between them and its padding; across, its largest child and its
/// padding.
pub open spec fn content_min(n: NodeModel, axis: Axis) -> i32 {
    match n.kind {
        NodeKind::Empty => n.constraints.min_along(axis),
        NodeKind::Block => clamp(
            n.padding.along(axis) + (if n.children.len() > 0 {
                n.children[0].constraints.min_along(axis) as int
            } else {
                0
            }),
        ),
        _ => if axis == n.kind.main_axis() {
            clamp(
                total(n.child_mins(axis)) + gap_total(n.spacing as int, n.children.len() as int)
                    + n.padding.along(axis),
            )
        } else {
            clamp(highest(n.child_mins(axis)) + n.padding.along(axis))
        },
    }
}

/// The minimum extent of `n` along `axis`: its fixed size if it has one, else
/// what its content needs.
pub open spec fn solved_min(n: NodeModel, axis: Axis) -> i32 {
    match n.intrinsic_size.along(axis) {
        BoxSizing::Fixed(value) => value,
        _ => content_min(n, axis),
    }
}

/// The tree after the minimum constraints of every node have been solved,
/// children before parents.
pub open spec fn min_pass(n: NodeModel) -> NodeModel
    decreases n,
{
    let below = NodeModel {
        children: Seq::new(
            n.children.len(),
            |i: int|
                if 0 <= i < n.children.len() {
                    min_pass(n.children[i])
                } else {
                    n
                },
        ),
        ..n
    };
    NodeModel {
        constraints: BoxConstraints {
            min_width: solved_min(below, Axis::Horizontal),
            min_height: solved_min(below, Axis::Vertical),
            ..n.constraints
        },
        ..below
    }
}

// ---------------------------------------------------------------------------
// Maximum constraints, top-down

/// The flex factor of a sizing, and zero for one that does not flex.
pub open spec fn flex_factor(sizing: BoxSizing) -> int {
    match sizing {
        BoxSizing::Flex(factor) => factor as int,
        _ => 0,
    }
}

/// What a child takes of its container's main axis whatever space there is:
/// its fixed size, or its minimum if it shrinks, and nothing if it flexes.
pub open spec fn rigid_extent(k: NodeModel, axis: Axis) -> int {
    match k.intrinsic_size.along(axis) {
        BoxSizing::Fixed(value) => value as int,
        BoxSizing::Shrink => k.constraints.min_along(axis) as int,
        BoxSizing::Flex(_) => 0,
    }
}

/// The sum of the flex factors of the children of `n` along `axis`.
pub open spec fn flex_total(n: NodeModel, axis: Axis) -> int {
    total(Seq::new(n.children.len(), |i: int| flex_factor(n.children[i].intrinsic_size.along(axis))))
}

/// The sum of what the children of `n` take along `axis` whatever space
/// there is.
pub open spec fn rigid_total(n: NodeModel, axis: Axis) -> int {
    total(Seq::new(n.children.len(), |i: int| rigid_extent(n.children[i], axis)))
}

/// The extent of `n` from which the space of its children is counted: its
/// minimum if it shrinks, else its maximum.
pub open spec fn basis(n: NodeModel, axis: Axis) -> i32 {
    match n.intrinsic_size.along(axis) {
        BoxSizing::Shrink => n.constraints.min_along(axis),
        _ => n.constraints.max_along(axis),
    }
}

/// The space along the main axis that a row or column has left for its
/// flexible children: its basis less its padding, the rigid children and the
/// gaps.
pub open spec fn main_space(n: NodeModel) -> i32 {
    let axis = n.kind.main_axis();
    clamp(
        basis(n, axis) - n.padding.along(axis) - rigid_total(n, axis) - gap_total(
            n.spacing as int,
            n.children.len() as int,
        ),
    )
}

/// The space across the main axis that a row or column offers each flexible
/// child: its own minimum if it shrinks, else its maximum less its padding.
pub open spec fn cross_space(n: NodeModel) -> i32 {
    let axis = n.kind.main_axis().cross();
    match n.intrinsic_size.along(axis) {
        BoxSizing::Shrink => n.constraints.min_along(axis),
        _ => clamp(n.constraints.max_along(axis) - n.padding.along(axis)),
    }
}

/// The space that a block has left of `space` inside its padding.
pub open spec fn block_space(n: NodeModel, space: Size) -> Size {
    Size {
        width: clamp(space.width - n.padding.along(Axis::Horizontal)),
        height: clamp(space.height - n.padding.along(Axis::Vertical)),
    }
}

/// The constraints of the child `k` of `n` once `n`, itself given `space`,
/// has set the child's maximum along `axis`.
///
/// A fixed child gets its fixed size. In a row or column a shrinking child
/// gets its own minimum, and a flexible one its share of the main space or
/// all of the cross space. In a block a flexible child gets the space inside
/// the padding, and a shrinking one keeps what it has.
pub open spec fn limit_along(n: NodeModel, space: Size, k: NodeModel, axis: Axis) -> BoxConstraints {
    let given = k.constraints;
    match k.intrinsic_size.along(axis) {
        BoxSizing::Fixed(value) => given.limited(axis, value),
        BoxSizing::Shrink => if n.kind.is_flow() {
            given.limited(axis, given.min_along(axis))
        } else {
            given
        },
        BoxSizing::Flex(factor) => if !n.kind.is_flow() {
            given.limited(axis, block_space(n, space).along(axis))
        } else if axis == n.kind.main_axis() {
            given.limited(
                axis,
                clamp(flex_share(main_space(n) as int, factor as int, flex_total(n, axis))),
            )
        } else {
            given.limited(axis, cross_space(n))
        },
    }
}

/// The constraints of the child `k` of `n` once `n` has set its maximum on
/// both axes.
pub open spec fn child_limits(n: NodeModel, space: Size, k: NodeModel) -> BoxConstraints {
    let wide = limit_along(n, space, k, Axis::Horizontal);
    limit_along(n, space, NodeModel { constraints: wide, ..k }, Axis::Vertical)
}

/// The space that `n` hands down to a child with the constraints `limits`: a
/// block what is left inside its padding, a row or column the child's own
/// maximum.
pub open spec fn child_space(n: NodeModel, space: Size, limits: BoxConstraints) -> Size {
    if n.kind.is_flow() {
        Size { width: limits.max_along(Axis::Horizontal), height: limits.max_along(Axis::Vertical) }
    } else {
        block_space(n, space)
    }
}

/// The tree below `n` after the maximum constraints have been handed down,
/// parents before children. `limits` are the constraints that `n` itself has
/// been given, and `space` is the space that it has been told of.
pub open spec fn max_pass(n: NodeModel, limits: BoxConstraints, space: Size) -> NodeModel
    decreases n,
{
    let own = NodeModel { constraints: limits, ..n };
    NodeModel {
        children: Seq::new(
            n.children.len(),
            |i: int|
                if 0 <= i < n.children.len() {
                    let given = child_limits(own, space, n.children[i]);
                    max_pass(n.children[i], given, child_space(own, space, given))
                } else {
                    n
                },
        ),
        ..own
    }
}

// ---------------------------------------------------------------------------
// Sizes, bottom-up

/// The final extent of `n` along `axis`: the fixed size, the minimum of a
/// shrinking node, the maximum of a flexible one.
pub open spec fn resolved_extent(n: NodeModel, axis: Axis) -> i32 {
    match n.intrinsic_size.along(axis) {
        BoxSizing::Fixed(value) => value,
        BoxSizing::Shrink => n.constraints.min_along(axis),
        BoxSizing::Flex(_) => n.constraints.max_along(axis),
    }
}

/// The extent along the main axis of what a row or column holds: its
/// children, the gaps between them and its padding.
pub open spec fn content_main(n: NodeModel) -> int {
    let axis = n.kind.main_axis();
    total(n.child_sizes(axis)) + gap_total(n.spacing as int, n.children.len() as int)
        + n.padding.along(axis)
}

/// The extent across the main axis of what a row or column holds: its
/// largest child and its padding.
pub open spec fn content_cross(n: NodeModel) -> int {
    let axis = n.kind.main_axis().cross();
    highest(n.child_sizes(axis)) + n.padding.along(axis)
}

/// Whether the content of `n` is larger than `n` on `axis`. Only a row or
/// column can overflow.
pub open spec fn overflows(n: NodeModel, axis: OverflowAxis) -> bool {
    n.kind.is_flow() && match axis {
        OverflowAxis::MainAxis => content_main(n) > n.size.along(n.kind.main_axis()),
        OverflowAxis::CrossAxis => content_cross(n) > n.size.along(n.kind.main_axis().cross()),
    }
}

/// `errors`, with the overflow of `n` on `axis` added if there is one and it
/// is not recorded yet.
pub open spec fn with_overflow(errors: Seq<LayoutError>, n: NodeModel, axis: OverflowAxis) -> Seq<
    LayoutError,
> {
    let finding = LayoutError::Overflow { id: n.id, axis };
    if overflows(n, axis) && !errors.contains(finding) {
        errors.push(finding)
    } else {
        errors
    }
}

/// The tree after every node has taken its final size, children before the
/// overflow check of their parent.
pub open spec fn size_pass(n: NodeModel) -> NodeModel
    decreases n,
{
    let sized = NodeModel {
        size: Size {
            width: resolved_extent(n, Axis::Horizontal),
            height: resolved_extent(n, Axis::Vertical),
        },
        children: Seq::new(
            n.children.len(),
            |i: int|
                if 0 <= i < n.children.len() {
                    size_pass(n.children[i])
                } else {
                    n
                },
        ),
        ..n
    };
    NodeModel {
        errors: with_overflow(
            with_overflow(n.errors, sized, OverflowAxis::CrossAxis),
            sized,
            OverflowAxis::MainAxis,
        ),
        ..sized
    }
}

// ---------------------------------------------------------------------------
// Positions, top-down

/// How far the near edge of child `i` lies behind that of the first child:
/// the children before it and a gap after each of them.
pub open spec fn run_before(n: NodeModel, i: int) -> int {
    total(n.child_sizes(n.kind.main_axis()).take(i)) + n.spacing * i
}

/// The extent of the children as one run along the main axis: all of them
/// and the gaps between them.
pub open spec fn run_total(n: NodeModel) -> int {
    total(n.child_sizes(n.kind.main_axis())) + gap_total(
        n.spacing as int,
        n.children.len() as int,
    )
}

/// Where `alignment` puts the near edge of something of extent `extent`
/// inside a box that begins at `origin`, is `room` long and is padded by
/// `near` and `far`: behind the near padding, in the middle of the box, or
/// with its far edge before the far padding.
pub open spec fn aligned(
    alignment: AxisAlignment,
    origin: int,
    room: int,
    near: int,
    far: int,
    extent: int,
) -> int {
    match alignment {
        AxisAlignment::Start => origin + near,
        AxisAlignment::Center => origin + (room - extent) / 2,
        AxisAlignment::End => origin + room - far - extent,
    }
}

/// The coordinate along the main axis of child `i` of `n`, when `n` lies at
/// `origin`: the run of children is aligned as one, child `i` lies in it
/// behind its elder siblings, and all are moved by the scroll offset.
pub open spec fn child_main(n: NodeModel, origin: Position, i: int) -> i32 {
    let axis = n.kind.main_axis();
    clamp(
        aligned(
            n.main_axis_alignment,
            origin.along(axis) as int,
            n.size.along(axis) as int,
            n.padding.near(axis) as int,
            n.padding.far(axis) as int,
            run_total(n),
        ) + run_before(n, i) + n.scroll(),
    )
}

/// The extent with which child `i` of `n` takes part in the alignment across
/// the main axis: its own, but none in a row or column that aligns to the
/// end, which puts the near edge of each child before its far padding.
pub open spec fn cross_extent(n: NodeModel, i: int) -> int {
    if n.kind.is_flow() && n.cross_axis_alignment == AxisAlignment::End {
        0
    } else {
        n.children[i].size.along(n.kind.main_axis().cross()) as int
    }
}

/// The coordinate across the main axis of child `i` of `n`, when `n` lies at
/// `origin`: each child is aligned by itself.
pub open spec fn child_cross(n: NodeModel, origin: Position, i: int) -> i32 {
    let axis = n.kind.main_axis().cross();
    clamp(
        aligned(
            n.cross_axis_alignment,
            origin.along(axis) as int,
            n.size.along(axis) as int,
            n.padding.near(axis) as int,
            n.padding.far(axis) as int,
            cross_extent(n, i),
        ),
    )
}

/// The position of child `i` of `n`, when `n` lies at `origin`.
pub open spec fn child_position(n: NodeModel, origin: Position, i: int) -> Position {
    match n.kind.main_axis() {
        Axis::Horizontal => Position { x: child_main(n, origin, i), y: child_cross(n, origin, i) },
        Axis::Vertical => Position { x: child_cross(n, origin, i), y: child_main(n, origin, i) },
    }
}

/// Whether a box at `place` of extent `size` has an edge outside the box at
/// `origin` of extent `room`, along `axis`.
pub open spec fn beyond(origin: Position, room: Size, place: Position, size: Size, axis: Axis) -> bool {
    place.along(axis) < origin.along(axis) || place.along(axis) + size.along(axis) > origin.along(
        axis,
    ) + room.along(axis)
}

/// Whether child `i` of `n` lies out of the bounds of `n`, when `n` lies at
/// `origin`: whether any edge of the child's box lies beyond the box of `n`,
/// on either axis.
pub open spec fn out_of_bounds(n: NodeModel, origin: Position, i: int) -> bool {
    let place = child_position(n, origin, i);
    let size = n.children[i].size;
    beyond(origin, n.size, place, size, Axis::Horizontal) || beyond(
        origin,
        n.size,
        place,
        size,
        Axis::Vertical,
    )
}

/// The findings about the first `count` children of `n`, in their order: one
/// for each child that lies out of bounds.
pub open spec fn bounds_findings(n: NodeModel, origin: Position, count: int) -> Seq<LayoutError>
    decreases count,
{
    if count <= 0 {
        Seq::empty()
    } else {
        let before = bounds_findings(n, origin, count - 1);
        if out_of_bounds(n, origin, count - 1) {
            before.push(
                LayoutError::OutOfBounds { parent_id: n.id, child_id: n.children[count - 1].id },
            )
        } else {
            before
        }
    }
}

/// The tree below `n` after every child has been placed, parents before
/// children, when `n` itself lies at `origin`.
pub open spec fn position_pass(n: NodeModel, origin: Position) -> NodeModel
    decreases n,
{
    NodeModel {
        position: origin,
        errors: n.errors + bounds_findings(n, origin, n.children.len() as int),
        children: Seq::new(
            n.children.len(),
            |i: int|
                if 0 <= i < n.children.len() {
                    position_pass(n.children[i], child_position(n, origin, i))
                } else {
                    n
                },
        ),
        ..n
    }
}

// ---------------------------------------------------------------------------
// Findings

/// The tree without any recorded finding.
pub open spec fn cleared(n: NodeModel) -> NodeModel
    decreases n,
{
    NodeModel {
        errors: Seq::empty(),
        children: Seq::new(
            n.children.len(),
            |i: int|
                if 0 <= i < n.children.len() {
                    cleared(n.children[i])
                } else {
                    n
                },
        ),
        ..n
    }
}

/// All findings recorded in the tree: those of a node before those of its
/// children, and the children in their order.
pub open spec fn all_errors(n: NodeModel) -> Seq<LayoutError>
    decreases n, 1int,
{
    n.errors + errors_below(n, n.children.len() as int)
}

/// The findings recorded in the first `count` subtrees below `n`.
pub open spec fn errors_below(n: NodeModel, count: int) -> Seq<LayoutError>
    decreases n, 0int, count,
{
    if count <= 0 || count > n.children.len() {
        Seq::empty()
    } else {
        errors_below(n, count - 1) + all_errors(n.children[count - 1])
    }
}

// ---------------------------------------------------------------------------
// The whole solve

/// The constraints of a root that is given `window`: the height of the
/// window, and its width unless the root has a maximum width already.
pub open spec fn seeded(given: BoxConstraints, window: Size) -> BoxConstraints {
    BoxConstraints {
        max_width: match given.max_width {
            Some(width) => Some(width),
            None => Some(window.width),
        },
        max_height: window.height,
        ..given
    }
}

/// The tree after the four passes in `window`, with the findings of these
/// passes still on the nodes.
pub open spec fn arranged(n: NodeModel, window: Size) -> NodeModel {
    let fresh = cleared(n);
    let with_min = min_pass(NodeModel { constraints: seeded(n.constraints, window), ..fresh });
    let with_max = max_pass(with_min, with_min.constraints, window);
    let with_size = size_pass(with_max);
    position_pass(with_size, with_size.position)
}

/// The tree as `solve_layout` leaves it.
pub open spec fn solved(n: NodeModel, window: Size) -> NodeModel {
    cleared(arranged(n, window))
}

/// The findings that `solve_layout` returns.
pub open spec fn findings(n: NodeModel, window: Size) -> Seq<LayoutError> {
    all_errors(arranged(n, window))
}

} // verus!
