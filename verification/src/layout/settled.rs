//! What a pass leaves behind, and what the later passes keep of it.
//!
//! Each pass settles one part of the state of the tree. A tree in which a
//! part is settled is a fixed point of the pass that settles it, and the
//! later passes leave that part alone. From these facts follow the
//! guarantees of the solver.

use vstd::prelude::*;
use crate::axis::Axis;
use crate::constraints::BoxConstraints;
use crate::error::{LayoutError, OverflowAxis};
use crate::layout::model::{
    block_space, bounds_findings, child_limits, child_position, child_space, cleared, content_cross,
    content_main, content_min, cross_space, flex_factor, flex_total, limit_along, main_space,
    max_pass, min_pass, out_of_bounds, overflows, position_pass, resolved_extent, rigid_extent,
    rigid_total, run_before, run_total, size_pass, solved_min, with_overflow, NodeModel,
};
use crate::position::Position;
use crate::size::Size;

verus! {

/// How much of the state of two trees is compared.
pub enum Stage {
    /// What the nodes were configured with, and their minimum constraints.
    Mins,
    /// Also their maximum constraints.
    Limits,
    /// Also their sizes.
    Sizes,
    /// Also their positions: everything but the recorded findings.
    Places,
}

impl Stage {
    /// Whether this stage compares at least what `other` compares.
    pub open spec fn covers(self, other: Stage) -> bool {
        match other {
            Stage::Mins => true,
            Stage::Limits => self != Stage::Mins,
            Stage::Sizes => self == Stage::Sizes || self == Stage::Places,
            Stage::Places => self == Stage::Places,
        }
    }
}

/// Whether two nodes were configured alike and have as many children.
pub open spec fn same_settings(a: NodeModel, b: NodeModel) -> bool {
    &&& a.kind == b.kind
    &&& a.id == b.id
    &&& a.label == b.label
    &&& a.intrinsic_size == b.intrinsic_size
    &&& a.padding == b.padding
    &&& a.spacing == b.spacing
    &&& a.scroll_offset == b.scroll_offset
    &&& a.main_axis_alignment == b.main_axis_alignment
    &&& a.cross_axis_alignment == b.cross_axis_alignment
    &&& a.children.len() == b.children.len()
}

/// Whether two trees have the same shape and agree, node by node, in what
/// `stage` compares.
pub open spec fn alike(a: NodeModel, b: NodeModel, stage: Stage) -> bool
    decreases a,
{
    &&& same_settings(a, b)
    &&& a.constraints.min_width == b.constraints.min_width
    &&& a.constraints.min_height == b.constraints.min_height
    &&& stage.covers(Stage::Limits) ==> a.constraints == b.constraints
    &&& stage.covers(Stage::Sizes) ==> a.size == b.size
    &&& stage.covers(Stage::Places) ==> a.position == b.position
    &&& forall|i: int|
        0 <= i < a.children.len() ==> alike(#[trigger] a.children[i], b.children[i], stage)
}

/// Whether two trees have the same shape and were configured alike, node by
/// node: they may differ in what the passes work on.
pub open spec fn same_shape(a: NodeModel, b: NodeModel) -> bool
    decreases a,
{
    &&& same_settings(a, b)
    &&& forall|i: int|
        0 <= i < a.children.len() ==> same_shape(#[trigger] a.children[i], b.children[i])
}

/// Whether every node of the tree has the minimum constraints that the first
/// pass gives it.
pub open spec fn min_settled(n: NodeModel) -> bool
    decreases n,
{
    &&& n.constraints.min_width == solved_min(n, Axis::Horizontal)
    &&& n.constraints.min_height == solved_min(n, Axis::Vertical)
    &&& forall|i: int| 0 <= i < n.children.len() ==> min_settled(#[trigger] n.children[i])
}

/// Whether every node below `n`, which has been told of `space`, has the
/// maximum constraints that the second pass gives it.
pub open spec fn max_settled(n: NodeModel, space: Size) -> bool
    decreases n,
{
    forall|i: int|
        0 <= i < n.children.len() ==> {
            &&& (#[trigger] n.children[i]).constraints == child_limits(n, space, n.children[i])
            &&& max_settled(n.children[i], child_space(n, space, n.children[i].constraints))
        }
}

/// Whether every node of the tree has the size that the third pass gives it.
pub open spec fn size_settled(n: NodeModel) -> bool
    decreases n,
{
    &&& n.size.width == resolved_extent(n, Axis::Horizontal)
    &&& n.size.height == resolved_extent(n, Axis::Vertical)
    &&& forall|i: int| 0 <= i < n.children.len() ==> size_settled(#[trigger] n.children[i])
}

/// Whether every node below `n` lies where the fourth pass puts it.
pub open spec fn place_settled(n: NodeModel) -> bool
    decreases n,
{
    forall|i: int|
        0 <= i < n.children.len() ==> {
            &&& (#[trigger] n.children[i]).position == child_position(n, n.position, i)
            &&& place_settled(n.children[i])
        }
}

// ---------------------------------------------------------------------------
// Trees that are alike

/// A tree is like itself.
pub proof fn alike_reflexive(a: NodeModel, stage: Stage)
    ensures
        alike(a, a, stage),
    decreases a,
{
    assert forall|i: int| 0 <= i < a.children.len() implies alike(
        #[trigger] a.children[i],
        a.children[i],
        stage,
    ) by {
        alike_reflexive(a.children[i], stage);
    }
}

/// Likeness carries over from tree to tree.
pub proof fn alike_transitive(a: NodeModel, b: NodeModel, c: NodeModel, stage: Stage)
    requires
        alike(a, b, stage),
        alike(b, c, stage),
    ensures
        alike(a, c, stage),
    decreases a,
{
    assert forall|i: int| 0 <= i < a.children.len() implies alike(
        #[trigger] a.children[i],
        c.children[i],
        stage,
    ) by {
        alike_transitive(a.children[i], b.children[i], c.children[i], stage);
    }
}

/// Trees that are alike have the same shape.
pub proof fn alike_same_shape(a: NodeModel, b: NodeModel, stage: Stage)
    requires
        alike(a, b, stage),
    ensures
        same_shape(a, b),
    decreases a,
{
    assert forall|i: int| 0 <= i < a.children.len() implies same_shape(
        #[trigger] a.children[i],
        b.children[i],
    ) by {
        alike_same_shape(a.children[i], b.children[i], stage);
    }
}

/// Having the same shape carries over from tree to tree.
pub proof fn same_shape_transitive(a: NodeModel, b: NodeModel, c: NodeModel)
    requires
        same_shape(a, b),
        same_shape(b, c),
    ensures
        same_shape(a, c),
    decreases a,
{
    assert forall|i: int| 0 <= i < a.children.len() implies same_shape(
        #[trigger] a.children[i],
        c.children[i],
    ) by {
        same_shape_transitive(a.children[i], b.children[i], c.children[i]);
    }
}

/// The children of trees that are alike have the same minimum constraints.
pub proof fn alike_child_mins(a: NodeModel, b: NodeModel, stage: Stage, axis: Axis)
    requires
        alike(a, b, stage),
    ensures
        a.child_mins(axis) == b.child_mins(axis),
        content_min(a, axis) == content_min(b, axis),
        solved_min(a, axis) == solved_min(b, axis),
{
    assert forall|i: int| 0 <= i < a.children.len() implies a.child_mins(axis)[i] == b.child_mins(
        axis,
    )[i] by {
        assert(alike(a.children[i], b.children[i], stage));
    }
    assert(a.child_mins(axis) =~= b.child_mins(axis));
    if a.children.len() > 0 {
        assert(alike(a.children[0], b.children[0], stage));
    }
}

// ---------------------------------------------------------------------------
// The first pass

/// The first pass settles the minimum constraints.
pub proof fn min_pass_settles(n: NodeModel)
    ensures
        min_settled(min_pass(n)),
        same_settings(n, min_pass(n)),
    decreases n,
{
    let r = min_pass(n);
    assert forall|i: int| 0 <= i < r.children.len() implies min_settled(#[trigger] r.children[i]) by {
        min_pass_settles(n.children[i]);
    }
}

/// The first pass leaves alone what the nodes were configured with.
pub proof fn min_pass_keeps_shape(n: NodeModel)
    ensures
        same_shape(n, min_pass(n)),
    decreases n,
{
    let r = min_pass(n);
    assert forall|i: int| 0 <= i < n.children.len() implies same_shape(
        #[trigger] n.children[i],
        r.children[i],
    ) by {
        min_pass_keeps_shape(n.children[i]);
    }
}

/// A tree whose minimum constraints are settled is left as it is by the
/// first pass.
pub proof fn min_pass_fixed(n: NodeModel)
    requires
        min_settled(n),
    ensures
        min_pass(n) == n,
    decreases n,
{
    let r = min_pass(n);
    assert forall|i: int| 0 <= i < n.children.len() implies r.children[i] == n.children[i] by {
        min_pass_fixed(n.children[i]);
    }
    assert(r.children =~= n.children);
}

/// Trees that are alike have their minimum constraints settled together.
pub proof fn min_settled_carries(a: NodeModel, b: NodeModel, stage: Stage)
    requires
        alike(a, b, stage),
        min_settled(a),
    ensures
        min_settled(b),
    decreases a,
{
    alike_child_mins(a, b, stage, Axis::Horizontal);
    alike_child_mins(a, b, stage, Axis::Vertical);
    assert forall|i: int| 0 <= i < b.children.len() implies min_settled(#[trigger] b.children[i]) by {
        min_settled_carries(a.children[i], b.children[i], stage);
    }
}

// ---------------------------------------------------------------------------
// The second pass

/// Parents that are alike and have the same constraints offer their children
/// the same space.
pub proof fn alike_rooms(a: NodeModel, b: NodeModel, stage: Stage)
    requires
        alike(a, b, stage),
        a.constraints == b.constraints,
    ensures
        forall|axis: Axis| flex_total(a, axis) == flex_total(b, axis),
        forall|axis: Axis| rigid_total(a, axis) == rigid_total(b, axis),
        main_space(a) == main_space(b),
        cross_space(a) == cross_space(b),
        forall|space: Size| block_space(a, space) == block_space(b, space),
{
    assert forall|axis: Axis| flex_total(a, axis) == flex_total(b, axis) && rigid_total(a, axis)
        == rigid_total(b, axis) by {
        let fa = Seq::new(
            a.children.len(),
            |i: int| flex_factor(a.children[i].intrinsic_size.along(axis)),
        );
        let fb = Seq::new(
            b.children.len(),
            |i: int| flex_factor(b.children[i].intrinsic_size.along(axis)),
        );
        let ra = Seq::new(a.children.len(), |i: int| rigid_extent(a.children[i], axis));
        let rb = Seq::new(b.children.len(), |i: int| rigid_extent(b.children[i], axis));
        assert forall|i: int| 0 <= i < a.children.len() implies fa[i] == fb[i] && ra[i]
            == rb[i] by {
            assert(alike(a.children[i], b.children[i], stage));
        }
        assert(fa =~= fb);
        assert(ra =~= rb);
    }
}

/// Parents that are alike and have the same constraints give the same
/// maximum constraints to children that are sized alike.
pub proof fn alike_limits(
    a: NodeModel,
    b: NodeModel,
    stage: Stage,
    space: Size,
    j: NodeModel,
    k: NodeModel,
)
    requires
        alike(a, b, stage),
        a.constraints == b.constraints,
        j.constraints == k.constraints,
        j.intrinsic_size == k.intrinsic_size,
    ensures
        child_limits(a, space, j) == child_limits(b, space, k),
        forall|limits: BoxConstraints| child_space(a, space, limits) == child_space(b, space, limits),
{
    alike_rooms(a, b, stage);
}

/// The second pass leaves alone what the nodes were configured with and
/// their minimum constraints, and gives the node itself the constraints that
/// it was handed.
pub proof fn max_pass_keeps_mins(n: NodeModel, limits: BoxConstraints, space: Size)
    requires
        limits.min_width == n.constraints.min_width,
        limits.min_height == n.constraints.min_height,
    ensures
        alike(n, max_pass(n, limits, space), Stage::Mins),
        max_pass(n, limits, space).constraints == limits,
    decreases n,
{
    let own = NodeModel { constraints: limits, ..n };
    let r = max_pass(n, limits, space);
    assert forall|i: int| 0 <= i < n.children.len() implies alike(
        #[trigger] n.children[i],
        r.children[i],
        Stage::Mins,
    ) by {
        let given = child_limits(own, space, n.children[i]);
        max_pass_keeps_mins(n.children[i], given, child_space(own, space, given));
    }
}

/// The second pass settles the maximum constraints.
pub proof fn max_pass_settles(n: NodeModel, limits: BoxConstraints, space: Size)
    requires
        limits.min_width == n.constraints.min_width,
        limits.min_height == n.constraints.min_height,
    ensures
        max_settled(max_pass(n, limits, space), space),
    decreases n,
{
    let own = NodeModel { constraints: limits, ..n };
    let r = max_pass(n, limits, space);
    max_pass_keeps_mins(n, limits, space);
    assert(alike(own, r, Stage::Mins)) by {
        assert forall|i: int| 0 <= i < own.children.len() implies alike(
            #[trigger] own.children[i],
            r.children[i],
            Stage::Mins,
        ) by {
            assert(alike(n.children[i], r.children[i], Stage::Mins));
        }
    }
    assert forall|i: int| 0 <= i < r.children.len() implies {
        &&& (#[trigger] r.children[i]).constraints == child_limits(r, space, r.children[i])
        &&& max_settled(r.children[i], child_space(r, space, r.children[i].constraints))
    } by {
        let before = n.children[i];
        let given = child_limits(own, space, before);
        let room = child_space(own, space, given);
        max_pass_settles(before, given, room);
        alike_limits(
            own,
            r,
            Stage::Mins,
            space,
            NodeModel { constraints: given, ..before },
            r.children[i],
        );
    }
}

/// A tree whose maximum constraints are settled is left as it is by the
/// second pass.
pub proof fn max_pass_fixed(n: NodeModel, space: Size)
    requires
        max_settled(n, space),
    ensures
        max_pass(n, n.constraints, space) == n,
    decreases n,
{
    let r = max_pass(n, n.constraints, space);
    assert forall|i: int| 0 <= i < n.children.len() implies r.children[i] == n.children[i] by {
        let k = n.children[i];
        max_pass_fixed(k, child_space(n, space, k.constraints));
    }
    assert(r.children =~= n.children);
}

/// Trees that are alike in their constraints have their maximum constraints
/// settled together.
pub proof fn max_settled_carries(a: NodeModel, b: NodeModel, stage: Stage, space: Size)
    requires
        alike(a, b, stage),
        stage.covers(Stage::Limits),
        max_settled(a, space),
    ensures
        max_settled(b, space),
    decreases a,
{
    assert forall|i: int| 0 <= i < b.children.len() implies {
        &&& (#[trigger] b.children[i]).constraints == child_limits(b, space, b.children[i])
        &&& max_settled(b.children[i], child_space(b, space, b.children[i].constraints))
    } by {
        assert(alike(a.children[i], b.children[i], stage));
        alike_limits(a, b, stage, space, a.children[i], b.children[i]);
        max_settled_carries(
            a.children[i],
            b.children[i],
            stage,
            child_space(a, space, a.children[i].constraints),
        );
    }
}

// ---------------------------------------------------------------------------
// The third pass

/// The third pass leaves alone what the nodes were configured with and their
/// constraints.
pub proof fn size_pass_keeps_limits(n: NodeModel)
    ensures
        alike(n, size_pass(n), Stage::Limits),
    decreases n,
{
    let r = size_pass(n);
    assert forall|i: int| 0 <= i < n.children.len() implies alike(
        #[trigger] n.children[i],
        r.children[i],
        Stage::Limits,
    ) by {
        size_pass_keeps_limits(n.children[i]);
    }
}

/// The third pass settles the sizes.
pub proof fn size_pass_settles(n: NodeModel)
    ensures
        size_settled(size_pass(n)),
    decreases n,
{
    let r = size_pass(n);
    assert forall|i: int| 0 <= i < r.children.len() implies size_settled(
        #[trigger] r.children[i],
    ) by {
        size_pass_settles(n.children[i]);
    }
}

/// A tree whose sizes are settled keeps everything but its findings in the
/// third pass.
pub proof fn size_pass_fixed(n: NodeModel)
    requires
        size_settled(n),
    ensures
        alike(n, size_pass(n), Stage::Places),
    decreases n,
{
    let r = size_pass(n);
    assert forall|i: int| 0 <= i < n.children.len() implies alike(
        #[trigger] n.children[i],
        r.children[i],
        Stage::Places,
    ) by {
        size_pass_fixed(n.children[i]);
    }
}

/// Trees that are alike in their sizes have their sizes settled together.
pub proof fn size_settled_carries(a: NodeModel, b: NodeModel, stage: Stage)
    requires
        alike(a, b, stage),
        stage.covers(Stage::Sizes),
        size_settled(a),
    ensures
        size_settled(b),
    decreases a,
{
    assert forall|i: int| 0 <= i < b.children.len() implies size_settled(
        #[trigger] b.children[i],
    ) by {
        size_settled_carries(a.children[i], b.children[i], stage);
    }
}

// ---------------------------------------------------------------------------
// The fourth pass

/// Parents that are alike in their sizes hold children of the same sizes,
/// and so have the same content.
pub proof fn alike_child_sizes(a: NodeModel, b: NodeModel, stage: Stage)
    requires
        alike(a, b, stage),
        stage.covers(Stage::Sizes),
    ensures
        forall|axis: Axis| a.child_sizes(axis) == b.child_sizes(axis),
        content_main(a) == content_main(b),
        content_cross(a) == content_cross(b),
        forall|axis: OverflowAxis| overflows(a, axis) == overflows(b, axis),
        run_total(a) == run_total(b),
        forall|i: int| run_before(a, i) == run_before(b, i),
{
    assert forall|axis: Axis| a.child_sizes(axis) == b.child_sizes(axis) by {
        assert forall|i: int| 0 <= i < a.children.len() implies a.child_sizes(axis)[i]
            == b.child_sizes(axis)[i] by {
            assert(alike(a.children[i], b.children[i], stage));
        }
    }
}

/// Parents that are alike in their sizes place their children alike, and
/// find the same children out of bounds.
pub proof fn alike_positions(a: NodeModel, b: NodeModel, stage: Stage, origin: Position)
    requires
        alike(a, b, stage),
        stage.covers(Stage::Sizes),
    ensures
        forall|i: int|
            0 <= i < a.children.len() ==> child_position(a, origin, i) == child_position(
                b,
                origin,
                i,
            ),
        forall|i: int|
            0 <= i < a.children.len() ==> out_of_bounds(a, origin, i) == out_of_bounds(b, origin, i),
{
    alike_child_sizes(a, b, stage);
    assert forall|i: int| 0 <= i < a.children.len() implies child_position(a, origin, i)
        == child_position(b, origin, i) && out_of_bounds(a, origin, i) == out_of_bounds(
        b,
        origin,
        i,
    ) by {
        assert(alike(a.children[i], b.children[i], stage));
    }
}

/// Parents that are alike in their sizes make the same findings about their
/// children.
pub proof fn alike_bounds_findings(
    a: NodeModel,
    b: NodeModel,
    stage: Stage,
    origin: Position,
    count: int,
)
    requires
        alike(a, b, stage),
        stage.covers(Stage::Sizes),
        count <= a.children.len(),
    ensures
        bounds_findings(a, origin, count) == bounds_findings(b, origin, count),
    decreases count,
{
    if count > 0 {
        alike_bounds_findings(a, b, stage, origin, count - 1);
        alike_positions(a, b, stage, origin);
        assert(alike(a.children[count - 1], b.children[count - 1], stage));
    }
}

/// The fourth pass leaves alone what the nodes were configured with, their
/// constraints and their sizes, and puts the node itself where it was told.
pub proof fn position_pass_keeps_sizes(n: NodeModel, origin: Position)
    ensures
        alike(n, position_pass(n, origin), Stage::Sizes),
        position_pass(n, origin).position == origin,
    decreases n,
{
    let r = position_pass(n, origin);
    assert forall|i: int| 0 <= i < n.children.len() implies alike(
        #[trigger] n.children[i],
        r.children[i],
        Stage::Sizes,
    ) by {
        position_pass_keeps_sizes(n.children[i], child_position(n, origin, i));
    }
}

/// The fourth pass settles the positions.
pub proof fn position_pass_settles(n: NodeModel, origin: Position)
    ensures
        place_settled(position_pass(n, origin)),
    decreases n,
{
    let r = position_pass(n, origin);
    position_pass_keeps_sizes(n, origin);
    alike_positions(n, r, Stage::Sizes, origin);
    assert forall|i: int| 0 <= i < r.children.len() implies {
        &&& (#[trigger] r.children[i]).position == child_position(r, r.position, i)
        &&& place_settled(r.children[i])
    } by {
        position_pass_settles(n.children[i], child_position(n, origin, i));
    }
}

/// A tree whose positions are settled keeps everything but its findings in
/// the fourth pass.
pub proof fn position_pass_fixed(n: NodeModel)
    requires
        place_settled(n),
    ensures
        alike(n, position_pass(n, n.position), Stage::Places),
    decreases n,
{
    let r = position_pass(n, n.position);
    assert forall|i: int| 0 <= i < n.children.len() implies alike(
        #[trigger] n.children[i],
        r.children[i],
        Stage::Places,
    ) by {
        let k = n.children[i];
        position_pass_fixed(k);
    }
}

/// Trees that are alike in their positions have their positions settled
/// together.
pub proof fn place_settled_carries(a: NodeModel, b: NodeModel, stage: Stage)
    requires
        alike(a, b, stage),
        stage.covers(Stage::Places),
        place_settled(a),
    ensures
        place_settled(b),
    decreases a,
{
    alike_positions(a, b, stage, a.position);
    assert forall|i: int| 0 <= i < b.children.len() implies {
        &&& (#[trigger] b.children[i]).position == child_position(b, b.position, i)
        &&& place_settled(b.children[i])
    } by {
        place_settled_carries(a.children[i], b.children[i], stage);
    }
}

// ---------------------------------------------------------------------------
// Discarding the findings

/// Discarding the findings leaves everything else alone.
pub proof fn cleared_keeps_places(n: NodeModel)
    ensures
        alike(n, cleared(n), Stage::Places),
    decreases n,
{
    let r = cleared(n);
    assert forall|i: int| 0 <= i < n.children.len() implies alike(
        #[trigger] n.children[i],
        r.children[i],
        Stage::Places,
    ) by {
        cleared_keeps_places(n.children[i]);
    }
}

/// Trees that differ in their findings only are the same once the findings
/// are discarded.
pub proof fn alike_cleared(a: NodeModel, b: NodeModel)
    requires
        alike(a, b, Stage::Places),
    ensures
        cleared(a) == cleared(b),
    decreases a,
{
    assert forall|i: int| 0 <= i < a.children.len() implies cleared(a.children[i]) == cleared(
        b.children[i],
    ) by {
        alike_cleared(a.children[i], b.children[i]);
    }
    assert(cleared(a).children =~= cleared(b).children);
}

// ---------------------------------------------------------------------------
// The findings

/// Whether no finding is recorded anywhere in the tree.
pub open spec fn silent(n: NodeModel) -> bool
    decreases n,
{
    &&& n.errors == Seq::<LayoutError>::empty()
    &&& forall|i: int| 0 <= i < n.children.len() ==> silent(#[trigger] n.children[i])
}

/// The findings that the third pass makes on a node on which none was
/// recorded before: the overflow across the main axis, then the one along
/// it.
pub open spec fn overflow_findings(n: NodeModel) -> Seq<LayoutError> {
    with_overflow(
        with_overflow(Seq::empty(), n, OverflowAxis::CrossAxis),
        n,
        OverflowAxis::MainAxis,
    )
}

/// The findings that the third and fourth pass make on a node on which none
/// was recorded before: its overflows, then its children that lie out of
/// bounds.
pub open spec fn expected_errors(n: NodeModel) -> Seq<LayoutError> {
    overflow_findings(n) + bounds_findings(n, n.position, n.children.len() as int)
}

/// Whether every node of the tree carries the overflow findings that its
/// sizes call for, and no other finding.
pub open spec fn overflow_settled(n: NodeModel) -> bool
    decreases n,
{
    &&& n.errors == overflow_findings(n)
    &&& forall|i: int| 0 <= i < n.children.len() ==> overflow_settled(#[trigger] n.children[i])
}

/// Whether every node of the tree carries the findings that its sizes and
/// positions call for, and no other finding.
pub open spec fn errors_settled(n: NodeModel) -> bool
    decreases n,
{
    &&& n.errors == expected_errors(n)
    &&& forall|i: int| 0 <= i < n.children.len() ==> errors_settled(#[trigger] n.children[i])
}

/// Nothing is recorded in a tree whose findings were discarded.
pub proof fn cleared_is_silent(n: NodeModel)
    ensures
        silent(cleared(n)),
    decreases n,
{
    let r = cleared(n);
    assert forall|i: int| 0 <= i < r.children.len() implies silent(#[trigger] r.children[i]) by {
        cleared_is_silent(n.children[i]);
    }
}

/// A tree in which nothing is recorded stays as it is when its findings are
/// discarded.
pub proof fn silent_is_cleared(n: NodeModel)
    requires
        silent(n),
    ensures
        cleared(n) == n,
    decreases n,
{
    assert forall|i: int| 0 <= i < n.children.len() implies cleared(n.children[i])
        == n.children[i] by {
        silent_is_cleared(n.children[i]);
    }
    assert(cleared(n).children =~= n.children);
}

/// The first pass records nothing.
pub proof fn min_pass_stays_silent(n: NodeModel)
    requires
        silent(n),
    ensures
        silent(min_pass(n)),
    decreases n,
{
    let r = min_pass(n);
    assert forall|i: int| 0 <= i < r.children.len() implies silent(#[trigger] r.children[i]) by {
        min_pass_stays_silent(n.children[i]);
    }
}

/// The second pass records nothing.
pub proof fn max_pass_stays_silent(n: NodeModel, limits: BoxConstraints, space: Size)
    requires
        silent(n),
    ensures
        silent(max_pass(n, limits, space)),
    decreases n,
{
    let own = NodeModel { constraints: limits, ..n };
    let r = max_pass(n, limits, space);
    assert forall|i: int| 0 <= i < r.children.len() implies silent(#[trigger] r.children[i]) by {
        let given = child_limits(own, space, n.children[i]);
        max_pass_stays_silent(n.children[i], given, child_space(own, space, given));
    }
}

/// Trees that are alike in their sizes call for the same overflow findings.
pub proof fn alike_overflow_findings(a: NodeModel, b: NodeModel, stage: Stage)
    requires
        alike(a, b, stage),
        stage.covers(Stage::Sizes),
    ensures
        overflow_findings(a) == overflow_findings(b),
{
    alike_child_sizes(a, b, stage);
}

/// On a tree in which nothing is recorded, the third pass records the
/// overflows and nothing else.
pub proof fn size_pass_records_overflows(n: NodeModel)
    requires
        silent(n),
    ensures
        overflow_settled(size_pass(n)),
    decreases n,
{
    let r = size_pass(n);
    let sized = NodeModel { errors: n.errors, ..r };
    assert forall|i: int| 0 <= i < r.children.len() implies overflow_settled(
        #[trigger] r.children[i],
    ) by {
        size_pass_records_overflows(n.children[i]);
    }
    alike_reflexive(r, Stage::Places);
    assert(alike(sized, r, Stage::Places)) by {
        assert forall|i: int| 0 <= i < sized.children.len() implies alike(
            #[trigger] sized.children[i],
            r.children[i],
            Stage::Places,
        ) by {
            assert(alike(r.children[i], r.children[i], Stage::Places));
        }
    }
}

/// On a tree that carries its overflow findings and nothing else, the fourth
/// pass adds the children that lie out of bounds and nothing else.
pub proof fn position_pass_records_bounds(n: NodeModel, origin: Position)
    requires
        overflow_settled(n),
    ensures
        errors_settled(position_pass(n, origin)),
    decreases n,
{
    let r = position_pass(n, origin);
    position_pass_keeps_sizes(n, origin);
    alike_overflow_findings(n, r, Stage::Sizes);
    alike_bounds_findings(n, r, Stage::Sizes, origin, n.children.len() as int);
    assert forall|i: int| 0 <= i < r.children.len() implies errors_settled(
        #[trigger] r.children[i],
    ) by {
        position_pass_records_bounds(n.children[i], child_position(n, origin, i));
    }
}

/// Trees that are alike in their positions call for the same findings.
pub proof fn alike_expected_errors(a: NodeModel, b: NodeModel)
    requires
        alike(a, b, Stage::Places),
    ensures
        expected_errors(a) == expected_errors(b),
{
    alike_overflow_findings(a, b, Stage::Places);
    alike_bounds_findings(a, b, Stage::Places, a.position, a.children.len() as int);
}

/// Trees that are alike in their positions and carry the findings that they
/// call for are the same tree.
pub proof fn alike_and_settled_is_equal(a: NodeModel, b: NodeModel)
    requires
        alike(a, b, Stage::Places),
        errors_settled(a),
        errors_settled(b),
    ensures
        a == b,
    decreases a,
{
    alike_expected_errors(a, b);
    assert forall|i: int| 0 <= i < a.children.len() implies a.children[i] == b.children[i] by {
        alike_and_settled_is_equal(a.children[i], b.children[i]);
    }
    assert(a.children =~= b.children);
}

} // verus!
