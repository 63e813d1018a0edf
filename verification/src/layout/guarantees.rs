//! What the solver guarantees of every tree and every window.

use vstd::prelude::*;
use crate::axis::Axis;
use crate::constraints::BoxSizing;
use crate::error::{LayoutError, OverflowAxis};
use crate::layout::iter::{preorder, preorder_from};
use crate::layout::model::{
    aligned, all_errors, arranged, basis, beyond, bounds_findings, child_space, cleared,
    content_min, cross_extent, errors_below, findings, flex_factor, flex_total, main_space,
    max_pass, min_pass, out_of_bounds, overflows, position_pass, rigid_extent, seeded, size_pass,
    solved, with_overflow, NodeKind, NodeModel,
};
use crate::layout::settled::{
    alike, alike_and_settled_is_equal, alike_child_sizes, alike_reflexive, alike_same_shape,
    alike_transitive, cleared_is_silent, cleared_keeps_places, errors_settled, max_pass_fixed,
    max_pass_keeps_mins, max_pass_settles, max_pass_stays_silent, max_settled, max_settled_carries,
    min_pass_fixed, min_pass_keeps_shape, min_pass_settles, min_pass_stays_silent, min_settled,
    min_settled_carries, overflow_findings, place_settled, place_settled_carries,
    position_pass_fixed, position_pass_keeps_sizes, position_pass_records_bounds,
    position_pass_settles, same_shape, same_shape_transitive, silent, silent_is_cleared,
    size_pass_fixed, size_pass_keeps_limits, size_pass_records_overflows, size_pass_settles,
    size_settled, size_settled_carries, Stage,
};
use crate::position::Position;
use crate::size::Size;
use crate::GlobalId;
use crate::units::{
    clamp, equal_shares, flex_share, flex_share_bounded, gap_total, total_covers, total_of_equal,
};

verus! {

/// Whether `holds` is true of `n` and of every node below it.
pub open spec fn everywhere(n: NodeModel, holds: spec_fn(NodeModel) -> bool) -> bool
    decreases n,
{
    &&& holds(n)
    &&& forall|i: int| 0 <= i < n.children.len() ==> everywhere(#[trigger] n.children[i], holds)
}

/// Whether `holds` is true of `n` or of some node below it.
pub open spec fn somewhere(n: NodeModel, holds: spec_fn(NodeModel) -> bool) -> bool
    decreases n,
{
    ||| holds(n)
    ||| exists|i: int| 0 <= i < n.children.len() && somewhere(#[trigger] n.children[i], holds)
}

/// What is true everywhere in a tree is true of every node that a walk over
/// the tree visits.
pub proof fn everywhere_on_walk(n: NodeModel, holds: spec_fn(NodeModel) -> bool, j: int)
    requires
        everywhere(n, holds),
        0 <= j < preorder(n).len(),
    ensures
        holds(preorder(n)[j]),
    decreases n, 1int,
{
    if j > 0 {
        everywhere_on_walk_from(n, holds, 0, j - 1);
    }
}

/// What is true everywhere below a node is true of every node that a walk
/// visits below it.
proof fn everywhere_on_walk_from(
    n: NodeModel,
    holds: spec_fn(NodeModel) -> bool,
    from: int,
    j: int,
)
    requires
        forall|i: int| 0 <= i < n.children.len() ==> everywhere(#[trigger] n.children[i], holds),
        0 <= from,
        0 <= j < preorder_from(n, from).len(),
    ensures
        holds(preorder_from(n, from)[j]),
    decreases n, 0int, n.children.len() - from,
{
    if from < n.children.len() {
        let first = preorder(n.children[from]);
        if j < first.len() {
            everywhere_on_walk(n.children[from], holds, j);
        } else {
            everywhere_on_walk_from(n, holds, from + 1, j - first.len());
        }
    }
}

/// What is true somewhere in a tree is true of a node that a walk over the
/// tree visits, and the other way round.
pub proof fn somewhere_on_walk(n: NodeModel, holds: spec_fn(NodeModel) -> bool)
    ensures
        somewhere(n, holds) <==> exists|j: int|
            0 <= j < preorder(n).len() && holds(#[trigger] preorder(n)[j]),
    decreases n, 1int,
{
    somewhere_on_walk_from(n, holds, 0);
    let below = preorder_from(n, 0);
    assert(preorder(n)[0] == n);
    if somewhere(n, holds) && !holds(n) {
        let j = choose|j: int| 0 <= j < below.len() && holds(#[trigger] below[j]);
        assert(preorder(n)[j + 1] == below[j]);
    }
    if exists|j: int| 0 <= j < preorder(n).len() && holds(#[trigger] preorder(n)[j]) {
        let j = choose|j: int| 0 <= j < preorder(n).len() && holds(#[trigger] preorder(n)[j]);
        if j > 0 {
            assert(below[j - 1] == preorder(n)[j]);
        }
    }
}

/// What is true somewhere below a node, from child `from` on, is true of a
/// node that a walk visits there, and the other way round.
proof fn somewhere_on_walk_from(n: NodeModel, holds: spec_fn(NodeModel) -> bool, from: int)
    requires
        0 <= from,
    ensures
        (exists|i: int|
            from <= i < n.children.len() && somewhere(#[trigger] n.children[i], holds)) <==> (
        exists|j: int|
            0 <= j < preorder_from(n, from).len() && holds(#[trigger] preorder_from(n, from)[j])),
    decreases n, 0int, n.children.len() - from,
{
    let here = preorder_from(n, from);
    if from < n.children.len() {
        let first = preorder(n.children[from]);
        let rest = preorder_from(n, from + 1);
        somewhere_on_walk(n.children[from], holds);
        somewhere_on_walk_from(n, holds, from + 1);
        if exists|i: int| from <= i < n.children.len() && somewhere(#[trigger] n.children[i], holds) {
            let i = choose|i: int|
                from <= i < n.children.len() && somewhere(#[trigger] n.children[i], holds);
            if i == from {
                let j = choose|j: int| 0 <= j < first.len() && holds(#[trigger] first[j]);
                assert(here[j] == first[j]);
            } else {
                assert(from + 1 <= i < n.children.len() && somewhere(n.children[i], holds));
                let j = choose|j: int| 0 <= j < rest.len() && holds(#[trigger] rest[j]);
                assert(here[first.len() + j] == rest[j]);
            }
        }
        if exists|j: int| 0 <= j < here.len() && holds(#[trigger] here[j]) {
            let j = choose|j: int| 0 <= j < here.len() && holds(#[trigger] here[j]);
            if j < first.len() {
                assert(first[j] == here[j]);
                assert(somewhere(n.children[from], holds));
            } else {
                assert(rest[j - first.len()] == here[j]);
                let i = choose|i: int|
                    from + 1 <= i < n.children.len() && somewhere(#[trigger] n.children[i], holds);
                assert(from <= i < n.children.len() && somewhere(n.children[i], holds));
            }
        }
    }
}

/// Whether the four passes have left the tree below and including `n` as
/// their rules say: every node has the minimum constraints that its content
/// calls for, the maximum constraints that its parent gives it, the size
/// that its sizing picks from them, and the position in which its parent
/// puts it.
pub open spec fn settled(n: NodeModel) -> bool {
    &&& min_settled(n)
    &&& size_settled(n)
    &&& place_settled(n)
    &&& exists|space: Size| max_settled(n, space)
}

/// A tree that is settled is settled below each of its nodes.
pub proof fn settled_everywhere(n: NodeModel)
    requires
        settled(n),
    ensures
        everywhere(n, |m: NodeModel| settled(m)),
    decreases n,
{
    let space = choose|space: Size| max_settled(n, space);
    assert forall|i: int| 0 <= i < n.children.len() implies everywhere(
        #[trigger] n.children[i],
        |m: NodeModel| settled(m),
    ) by {
        let k = n.children[i];
        assert(max_settled(k, child_space(n, space, k.constraints)));
        assert(settled(k));
        settled_everywhere(k);
    }
}

/// What follows from something that holds everywhere holds everywhere.
pub proof fn everywhere_follows(
    n: NodeModel,
    given: spec_fn(NodeModel) -> bool,
    wanted: spec_fn(NodeModel) -> bool,
)
    requires
        everywhere(n, given),
        forall|m: NodeModel| #[trigger] given(m) ==> wanted(m),
    ensures
        everywhere(n, wanted),
    decreases n,
{
    assert forall|i: int| 0 <= i < n.children.len() implies everywhere(
        #[trigger] n.children[i],
        wanted,
    ) by {
        everywhere_follows(n.children[i], given, wanted);
    }
}

/// The solver settles the tree: after the four passes every node is as the
/// rules of the passes say, with exactly the findings that its final size
/// and position call for; and once the findings are handed out the tree
/// holds none.
pub proof fn solve_settles(n: NodeModel, window: Size)
    ensures
        settled(arranged(n, window)),
        max_settled(arranged(n, window), window),
        errors_settled(arranged(n, window)),
        settled(solved(n, window)),
        max_settled(solved(n, window), window),
        silent(solved(n, window)),
        alike(arranged(n, window), solved(n, window), Stage::Places),
        seeded(solved(n, window).constraints, window) == solved(n, window).constraints,
{
    let fresh = cleared(n);
    let seed = NodeModel { constraints: seeded(n.constraints, window), ..fresh };
    let with_min = min_pass(seed);
    let with_max = max_pass(with_min, with_min.constraints, window);
    let with_size = size_pass(with_max);
    let placed = position_pass(with_size, with_size.position);
    let done = cleared(placed);
    assert(placed == arranged(n, window));
    assert(done == solved(n, window));

    // nothing is recorded until the sizes are settled
    cleared_is_silent(n);
    assert(silent(seed)) by {
        assert forall|i: int| 0 <= i < seed.children.len() implies silent(
            #[trigger] seed.children[i],
        ) by {
            assert(silent(fresh.children[i]));
        }
    }
    min_pass_stays_silent(seed);
    max_pass_stays_silent(with_min, with_min.constraints, window);
    size_pass_records_overflows(with_max);
    position_pass_records_bounds(with_size, with_size.position);
    cleared_is_silent(placed);

    // each pass settles its part
    min_pass_settles(seed);
    max_pass_settles(with_min, with_min.constraints, window);
    size_pass_settles(with_max);
    position_pass_settles(with_size, with_size.position);

    // and the later passes keep it
    max_pass_keeps_mins(with_min, with_min.constraints, window);
    size_pass_keeps_limits(with_max);
    position_pass_keeps_sizes(with_size, with_size.position);
    cleared_keeps_places(placed);

    min_settled_carries(with_min, with_max, Stage::Mins);
    min_settled_carries(with_max, with_size, Stage::Limits);
    min_settled_carries(with_size, placed, Stage::Sizes);
    min_settled_carries(placed, done, Stage::Places);

    max_settled_carries(with_max, with_size, Stage::Limits, window);
    max_settled_carries(with_size, placed, Stage::Sizes, window);
    max_settled_carries(placed, done, Stage::Places, window);

    size_settled_carries(with_size, placed, Stage::Sizes);
    size_settled_carries(placed, done, Stage::Places);

    place_settled_carries(placed, done, Stage::Places);
}

/// Solving changes nothing of what the tree was built as: every node keeps
/// its kind, its identifier and label, what it was configured with, and its
/// children in their number and order.
pub proof fn solving_keeps_the_shape(n: NodeModel, window: Size)
    ensures
        same_shape(n, solved(n, window)),
{
    let fresh = cleared(n);
    let seed = NodeModel { constraints: seeded(n.constraints, window), ..fresh };
    let with_min = min_pass(seed);
    let with_max = max_pass(with_min, with_min.constraints, window);
    let with_size = size_pass(with_max);
    let placed = position_pass(with_size, with_size.position);
    let done = cleared(placed);
    cleared_keeps_places(n);
    alike_same_shape(n, fresh, Stage::Places);
    assert(same_shape(fresh, seed)) by {
        assert forall|i: int| 0 <= i < fresh.children.len() implies same_shape(
            #[trigger] fresh.children[i],
            seed.children[i],
        ) by {
            alike_reflexive(fresh.children[i], Stage::Places);
            alike_same_shape(fresh.children[i], fresh.children[i], Stage::Places);
        }
    }
    min_pass_keeps_shape(seed);
    max_pass_keeps_mins(with_min, with_min.constraints, window);
    alike_same_shape(with_min, with_max, Stage::Mins);
    size_pass_keeps_limits(with_max);
    alike_same_shape(with_max, with_size, Stage::Limits);
    position_pass_keeps_sizes(with_size, with_size.position);
    alike_same_shape(with_size, placed, Stage::Sizes);
    cleared_keeps_places(placed);
    alike_same_shape(placed, done, Stage::Places);
    same_shape_transitive(n, seed, with_min);
    same_shape_transitive(n, with_min, with_max);
    same_shape_transitive(n, with_max, with_size);
    same_shape_transitive(n, with_size, placed);
    same_shape_transitive(n, placed, done);
}

// ---------------------------------------------------------------------------
// Solving again

/// Solving a tree that has been solved in the same window changes nothing:
/// every node keeps its constraints, size and position, and the same
/// findings are returned.
pub proof fn solving_again_changes_nothing(n: NodeModel, window: Size)
    ensures
        solved(solved(n, window), window) == solved(n, window),
        findings(solved(n, window), window) == findings(n, window),
{
    let first = arranged(n, window);
    let u = solved(n, window);
    solve_settles(n, window);
    solve_settles(u, window);
    silent_is_cleared(u);
    min_pass_fixed(u);
    max_pass_fixed(u, window);
    let sized = size_pass(u);
    size_pass_fixed(u);
    place_settled_carries(u, sized, Stage::Places);
    let placed = position_pass(sized, sized.position);
    position_pass_fixed(sized);
    alike_transitive(first, u, sized, Stage::Places);
    alike_transitive(first, sized, placed, Stage::Places);
    alike_and_settled_is_equal(first, placed);
}

// ---------------------------------------------------------------------------
// Sizes

/// Whether `m` has its fixed size on each axis on which its size is fixed.
pub open spec fn fixed_size_kept(m: NodeModel) -> bool {
    forall|axis: Axis|
        match #[trigger] m.intrinsic_size.along(axis) {
            BoxSizing::Fixed(value) => m.size.along(axis) == value,
            _ => true,
        }
}

/// Whether `m` is, on each axis on which it shrinks, exactly as large as its
/// content needs it: a block its child and its padding; a row or column all
/// children, the gaps between them and the padding along its main axis, and
/// its largest child and the padding across.
pub open spec fn shrinking_fits_content(m: NodeModel) -> bool {
    forall|axis: Axis|
        #[trigger] m.intrinsic_size.along(axis) == BoxSizing::Shrink ==> m.size.along(axis)
            == content_min(m, axis)
}

/// Whether each flexible child of the row or column `m` is as long, along
/// the main axis of `m`, as its share of the space that `m` has left for its
/// flexible children.
pub open spec fn flex_children_share(m: NodeModel) -> bool {
    m.kind.is_flow() ==> forall|i: int|
        0 <= i < m.children.len() ==> match (#[trigger] m.children[i]).intrinsic_size.along(
            m.kind.main_axis(),
        ) {
            BoxSizing::Flex(factor) => m.children[i].size.along(m.kind.main_axis()) == flex_share(
                main_space(m) as int,
                factor as int,
                flex_total(m, m.kind.main_axis()),
            ),
            _ => true,
        }
}

/// Whether all children of `m` are flexible along the main axis of `m`, with
/// the factor `factor`.
pub open spec fn all_flex(m: NodeModel, factor: u8) -> bool {
    forall|i: int|
        0 <= i < m.children.len() ==> (#[trigger] m.children[i]).intrinsic_size.along(
            m.kind.main_axis(),
        ) == BoxSizing::Flex(factor)
}

/// Whether the children of the row or column `m`, if they are all flexible
/// with the same positive factor, each have the same part of what `m` has
/// inside its padding and beside the gaps.
pub open spec fn equal_children_share_evenly(m: NodeModel) -> bool {
    forall|factor: u8|
        m.kind.is_flow() && m.children.len() > 0 && factor > 0 && #[trigger] all_flex(m, factor)
            ==> forall|i: int|
            0 <= i < m.children.len() ==> (#[trigger] m.children[i]).size.along(
                m.kind.main_axis(),
            ) == (clamp(
                basis(m, m.kind.main_axis()) - m.padding.along(m.kind.main_axis()) - gap_total(
                    m.spacing as int,
                    m.children.len() as int,
                ),
            ) as int) / (m.children.len() as int)
}

/// The flexible children of a settled row or column have their shares.
proof fn settled_shares(m: NodeModel)
    requires
        settled(m),
    ensures
        flex_children_share(m),
{
    if m.kind.is_flow() {
        let main = m.kind.main_axis();
        assert forall|i: int| 0 <= i < m.children.len() implies match (#[trigger] m.children[i])
            .intrinsic_size.along(main) {
            BoxSizing::Flex(factor) => m.children[i].size.along(main) == flex_share(
                main_space(m) as int,
                factor as int,
                flex_total(m, main),
            ),
            _ => true,
        } by {
            let k = m.children[i];
            assert(size_settled(k));
            let factors = Seq::new(
                m.children.len(),
                |i: int| flex_factor(m.children[i].intrinsic_size.along(main)),
            );
            total_covers(factors, i);
            flex_share_bounded(main_space(m) as int, factors[i], flex_total(m, main));
            match main {
                Axis::Horizontal => {},
                Axis::Vertical => {},
            }
        }
    }
}

/// Equal flexible children of a settled row or column share evenly.
proof fn settled_shares_evenly(m: NodeModel)
    requires
        settled(m),
    ensures
        equal_children_share_evenly(m),
{
    settled_shares(m);
    let main = m.kind.main_axis();
    let count = m.children.len() as int;
    assert forall|factor: u8|
        m.kind.is_flow() && m.children.len() > 0 && factor > 0 && #[trigger] all_flex(
            m,
            factor,
        ) implies forall|i: int|
        0 <= i < m.children.len() ==> (#[trigger] m.children[i]).size.along(main) == (clamp(
            basis(m, main) - m.padding.along(main) - gap_total(m.spacing as int, count),
        ) as int) / count by {
        let factors = Seq::new(
            m.children.len(),
            |i: int| flex_factor(m.children[i].intrinsic_size.along(main)),
        );
        let rigids = Seq::new(
            m.children.len(),
            |i: int| rigid_extent(m.children[i], main),
        );
        assert forall|i: int| 0 <= i < factors.len() implies #[trigger] factors[i]
            == factor as int by {}
        assert forall|i: int| 0 <= i < rigids.len() implies #[trigger] rigids[i] == 0int by {}
        total_of_equal(factors, factor as int);
        total_of_equal(rigids, 0);
        equal_shares(main_space(m) as int, factor as int, count);
        assert forall|i: int| 0 <= i < m.children.len() implies (#[trigger] m.children[i]).size.along(
            main,
        ) == (main_space(m) as int) / count by {}
    }
}

/// A node whose size is fixed on an axis has exactly that size on it after
/// solving, whatever the window and whatever surrounds the node.
pub proof fn fixed_size_is_final(n: NodeModel, window: Size)
    ensures
        everywhere(solved(n, window), |m: NodeModel| fixed_size_kept(m)),
{
    solve_settles(n, window);
    settled_everywhere(solved(n, window));
    assert forall|m: NodeModel| settled(m) implies fixed_size_kept(m) by {}
    everywhere_follows(
        solved(n, window),
        |m: NodeModel| settled(m),
        |m: NodeModel| fixed_size_kept(m),
    );
}

/// After solving, a row or column whose children are all flexible along its
/// main axis with the same positive factor has divided among them, in equal
/// parts rounded down, what it has inside its padding and beside the gaps.
pub proof fn equal_factors_share_evenly(n: NodeModel, window: Size)
    ensures
        everywhere(solved(n, window), |m: NodeModel| equal_children_share_evenly(m)),
{
    solve_settles(n, window);
    settled_everywhere(solved(n, window));
    assert forall|m: NodeModel| settled(m) implies equal_children_share_evenly(m) by {
        settled_shares_evenly(m);
    }
    everywhere_follows(
        solved(n, window),
        |m: NodeModel| settled(m),
        |m: NodeModel| equal_children_share_evenly(m),
    );
}

/// After solving, each flexible child of a row or column is as long as the
/// part of the available space that its factor is of the sum of the factors,
/// rounded down.
pub proof fn flex_child_gets_its_share(n: NodeModel, window: Size)
    ensures
        everywhere(solved(n, window), |m: NodeModel| flex_children_share(m)),
{
    solve_settles(n, window);
    settled_everywhere(solved(n, window));
    assert forall|m: NodeModel| settled(m) implies flex_children_share(m) by {
        settled_shares(m);
    }
    everywhere_follows(
        solved(n, window),
        |m: NodeModel| settled(m),
        |m: NodeModel| flex_children_share(m),
    );
}

/// After solving, a node that shrinks on an axis is exactly as large on it
/// as its content needs: the minimum extents of its children, the gaps
/// between them and its padding.
pub proof fn shrinking_node_fits_its_content(n: NodeModel, window: Size)
    ensures
        everywhere(solved(n, window), |m: NodeModel| shrinking_fits_content(m)),
{
    solve_settles(n, window);
    settled_everywhere(solved(n, window));
    assert forall|m: NodeModel| settled(m) implies shrinking_fits_content(m) by {}
    everywhere_follows(
        solved(n, window),
        |m: NodeModel| settled(m),
        |m: NodeModel| shrinking_fits_content(m),
    );
}

// ---------------------------------------------------------------------------
// Positions

/// Whether the only child of `m`, if `m` has exactly one, lies where the
/// alignments of `m` put it: along the main axis behind the near padding, or
/// in the middle of `m`, or with its far edge before the far padding, and
/// moved by the scroll offset of `m`; across the main axis likewise, and not
/// moved, but that a row or column that aligns to the end puts the near edge
/// of the child before its far padding.
pub open spec fn single_child_aligned(m: NodeModel) -> bool {
    m.children.len() == 1 ==> {
        let main = m.kind.main_axis();
        let cross = m.kind.main_axis().cross();
        let child = m.children[0];
        &&& child.position.along(main) == clamp(
            aligned(
                m.main_axis_alignment,
                m.position.along(main) as int,
                m.size.along(main) as int,
                m.padding.near(main) as int,
                m.padding.far(main) as int,
                child.size.along(main) as int,
            ) + m.scroll(),
        )
        &&& child.position.along(cross) == clamp(
            aligned(
                m.cross_axis_alignment,
                m.position.along(cross) as int,
                m.size.along(cross) as int,
                m.padding.near(cross) as int,
                m.padding.far(cross) as int,
                cross_extent(m, 0),
            ),
        )
    }
}

/// After solving, the only child of a node lies, along the main axis of the
/// node, at the node's position plus half of what the node is longer than the
/// child if the node centers it, and at the node's far edge less the far
/// padding and the child's own extent if the node aligns it to the end; in
/// both cases moved by the node's scroll offset.
pub proof fn single_child_is_aligned(n: NodeModel, window: Size)
    ensures
        everywhere(solved(n, window), |m: NodeModel| single_child_aligned(m)),
{
    solve_settles(n, window);
    settled_everywhere(solved(n, window));
    assert forall|m: NodeModel| settled(m) implies single_child_aligned(m) by {}
    everywhere_follows(
        solved(n, window),
        |m: NodeModel| settled(m),
        |m: NodeModel| single_child_aligned(m),
    );
}

// ---------------------------------------------------------------------------
// Findings

/// Whether child `i` of `m` has an edge outside the box of `m`, on either
/// axis.
pub open spec fn lies_outside(m: NodeModel, i: int) -> bool {
    let child = m.children[i];
    beyond(m.position, m.size, child.position, child.size, Axis::Horizontal) || beyond(
        m.position,
        m.size,
        child.position,
        child.size,
        Axis::Vertical,
    )
}

/// Whether `m` carries `parent_id` and has a child that carries `child_id`
/// and has an edge outside the box of `m`.
pub open spec fn holds_stray_child(m: NodeModel, parent_id: GlobalId, child_id: GlobalId) -> bool {
    m.id == parent_id && exists|i: int|
        0 <= i < m.children.len() && (#[trigger] m.children[i]).id == child_id && lies_outside(m, i)
}

/// What is in one of two sequences is in both of them put together.
proof fn joined_contains<A>(a: Seq<A>, b: Seq<A>, e: A)
    ensures
        (a + b).contains(e) <==> a.contains(e) || b.contains(e),
{
    if a.contains(e) {
        let i = choose|i: int| 0 <= i < a.len() && a[i] == e;
        assert((a + b)[i] == e);
    }
    if b.contains(e) {
        let i = choose|i: int| 0 <= i < b.len() && b[i] == e;
        assert((a + b)[a.len() + i] == e);
    }
    if (a + b).contains(e) {
        let i = choose|i: int| 0 <= i < (a + b).len() && (a + b)[i] == e;
        if i < a.len() {
        } else {
        }
    }
}

/// A finding is among those of the first subtrees below a node exactly when
/// it is among those of one of them.
proof fn errors_below_contains(n: NodeModel, count: int, e: LayoutError)
    requires
        0 <= count <= n.children.len(),
    ensures
        errors_below(n, count).contains(e) <==> exists|i: int|
            0 <= i < count && all_errors(#[trigger] n.children[i]).contains(e),
    decreases count,
{
    if count > 0 {
        errors_below_contains(n, count - 1, e);
        joined_contains(errors_below(n, count - 1), all_errors(n.children[count - 1]), e);
        if errors_below(n, count).contains(e) {
            if all_errors(n.children[count - 1]).contains(e) {
            } else {
                let i = choose|i: int|
                    0 <= i < count - 1 && all_errors(#[trigger] n.children[i]).contains(e);
            }
        }
    }
}

/// A finding is among those recorded in a tree exactly when some node of the
/// tree carries it.
pub proof fn recorded_somewhere(n: NodeModel, e: LayoutError)
    ensures
        all_errors(n).contains(e) <==> somewhere(n, |m: NodeModel| m.errors.contains(e)),
    decreases n,
{
    let carries = |m: NodeModel| m.errors.contains(e);
    joined_contains(n.errors, errors_below(n, n.children.len() as int), e);
    errors_below_contains(n, n.children.len() as int, e);
    assert forall|i: int| 0 <= i < n.children.len() implies (all_errors(
        #[trigger] n.children[i],
    ).contains(e) <==> somewhere(n.children[i], carries)) by {
        recorded_somewhere(n.children[i], e);
    }
    if all_errors(n).contains(e) && !n.errors.contains(e) {
        let i = choose|i: int|
            0 <= i < n.children.len() && all_errors(#[trigger] n.children[i]).contains(e);
    }
    if somewhere(n, carries) && !carries(n) {
        let i = choose|i: int|
            0 <= i < n.children.len() && somewhere(#[trigger] n.children[i], carries);
    }
}

/// Two statements that mean the same at every node of a tree are true
/// somewhere in it together.
pub proof fn somewhere_same(
    n: NodeModel,
    one: spec_fn(NodeModel) -> bool,
    other: spec_fn(NodeModel) -> bool,
)
    requires
        everywhere(n, |m: NodeModel| one(m) == other(m)),
    ensures
        somewhere(n, one) == somewhere(n, other),
    decreases n,
{
    assert forall|i: int| 0 <= i < n.children.len() implies somewhere(
        #[trigger] n.children[i],
        one,
    ) == somewhere(n.children[i], other) by {
        somewhere_same(n.children[i], one, other);
    }
    if somewhere(n, one) && !one(n) {
        let i = choose|i: int| 0 <= i < n.children.len() && somewhere(#[trigger] n.children[i], one);
    }
    if somewhere(n, other) && !other(n) {
        let i = choose|i: int|
            0 <= i < n.children.len() && somewhere(#[trigger] n.children[i], other);
    }
}

/// A statement that cannot tell trees apart that differ in their findings
/// only is true somewhere in both of two such trees or in neither.
pub proof fn somewhere_alike(a: NodeModel, b: NodeModel, holds: spec_fn(NodeModel) -> bool)
    requires
        alike(a, b, Stage::Places),
        forall|x: NodeModel, y: NodeModel| #[trigger]
            alike(x, y, Stage::Places) ==> holds(x) == holds(y),
    ensures
        somewhere(a, holds) == somewhere(b, holds),
    decreases a,
{
    assert forall|i: int| 0 <= i < a.children.len() implies somewhere(
        #[trigger] a.children[i],
        holds,
    ) == somewhere(b.children[i], holds) by {
        somewhere_alike(a.children[i], b.children[i], holds);
    }
    if somewhere(a, holds) && !holds(a) {
        let i = choose|i: int|
            0 <= i < a.children.len() && somewhere(#[trigger] a.children[i], holds);
    }
    if somewhere(b, holds) && !holds(b) {
        let i = choose|i: int|
            0 <= i < b.children.len() && somewhere(#[trigger] b.children[i], holds);
        assert(somewhere(a.children[i], holds));
    }
}

/// A tree that is settled and carries the findings that it calls for is so
/// below each of its nodes.
proof fn errors_settled_everywhere(n: NodeModel)
    requires
        settled(n),
        errors_settled(n),
    ensures
        everywhere(n, |m: NodeModel| settled(m) && errors_settled(m)),
    decreases n,
{
    let space = choose|space: Size| max_settled(n, space);
    assert forall|i: int| 0 <= i < n.children.len() implies everywhere(
        #[trigger] n.children[i],
        |m: NodeModel| settled(m) && errors_settled(m),
    ) by {
        let k = n.children[i];
        assert(max_settled(k, child_space(n, space, k.constraints)));
        errors_settled_everywhere(k);
    }
}

/// The findings about the first children of a node are the children among
/// them that lie out of bounds.
proof fn bounds_findings_contains(n: NodeModel, origin: Position, count: int, e: LayoutError)
    requires
        0 <= count <= n.children.len(),
    ensures
        bounds_findings(n, origin, count).contains(e) <==> exists|i: int|
            0 <= i < count && e == (LayoutError::OutOfBounds {
                parent_id: n.id,
                child_id: (#[trigger] n.children[i]).id,
            }) && out_of_bounds(n, origin, i),
    decreases count,
{
    if count > 0 {
        let before = bounds_findings(n, origin, count - 1);
        bounds_findings_contains(n, origin, count - 1, e);
        let last = LayoutError::OutOfBounds { parent_id: n.id, child_id: n.children[count - 1].id };
        if out_of_bounds(n, origin, count - 1) {
            assert(before.push(last) =~= before + seq![last]);
            joined_contains(before, seq![last], e);
            assert(seq![last].contains(e) <==> e == last) by {
                if e == last {
                    assert(seq![last][0] == e);
                }
            }
        }
        if bounds_findings(n, origin, count).contains(e) {
            if before.contains(e) {
                let i = choose|i: int|
                    0 <= i < count - 1 && e == (LayoutError::OutOfBounds {
                        parent_id: n.id,
                        child_id: (#[trigger] n.children[i]).id,
                    }) && out_of_bounds(n, origin, i);
            } else {
            }
        }
    } else {
    }
}

/// The overflow findings of a node are its overflows.
proof fn overflow_findings_contains(m: NodeModel, e: LayoutError)
    ensures
        overflow_findings(m).contains(e) <==> exists|axis: OverflowAxis|
            e == (LayoutError::Overflow { id: m.id, axis }) && overflows(m, axis),
{
    let none = Seq::<LayoutError>::empty();
    let cross = LayoutError::Overflow { id: m.id, axis: OverflowAxis::CrossAxis };
    let main = LayoutError::Overflow { id: m.id, axis: OverflowAxis::MainAxis };
    let first = with_overflow(none, m, OverflowAxis::CrossAxis);
    let both = overflow_findings(m);
    if overflows(m, OverflowAxis::CrossAxis) {
        assert(!first.contains(main)) by {
            if first.contains(main) {
                let i = choose|i: int| 0 <= i < first.len() && first[i] == main;
            }
        }
    } else {
    }
    if overflows(m, OverflowAxis::MainAxis) {
        assert(both[both.len() - 1] == main);
        if overflows(m, OverflowAxis::CrossAxis) {
            assert(both[0] == cross);
        }
    } else {
    }
    if both.contains(e) {
        if e == cross {
        } else {
        }
    }
    if exists|axis: OverflowAxis|
        e == (LayoutError::Overflow { id: m.id, axis }) && overflows(m, axis) {
        let axis = choose|axis: OverflowAxis|
            e == (LayoutError::Overflow { id: m.id, axis }) && overflows(m, axis);
        match axis {
            OverflowAxis::MainAxis => {
            },
            OverflowAxis::CrossAxis => {
            },
        }
    }
}

/// An overflow is among the findings returned exactly when, in the solved
/// tree, a row or column with the identifier of the finding holds more than
/// fits into it on the axis of the finding: along its main axis its
/// children, the gaps between them and its padding; across, its largest
/// child and its padding.
pub proof fn overflow_is_reported_exactly(
    n: NodeModel,
    window: Size,
    id: GlobalId,
    axis: OverflowAxis,
)
    ensures
        findings(n, window).contains(LayoutError::Overflow { id, axis }) <==> somewhere(
            solved(n, window),
            |m: NodeModel| m.id == id && overflows(m, axis),
        ),
{
    let tree = arranged(n, window);
    let e = LayoutError::Overflow { id, axis };
    let carries = |m: NodeModel| m.errors.contains(e);
    let over = |m: NodeModel| m.id == id && overflows(m, axis);
    solve_settles(n, window);
    recorded_somewhere(tree, e);
    errors_settled_everywhere(tree);
    assert forall|m: NodeModel| settled(m) && errors_settled(m) implies carries(m) == over(m) by {
        overflow_findings_contains(m, e);
        bounds_findings_contains(m, m.position, m.children.len() as int, e);
        joined_contains(
            overflow_findings(m),
            bounds_findings(m, m.position, m.children.len() as int),
            e,
        );
        if over(m) {
        }
    }
    everywhere_follows(
        tree,
        |m: NodeModel| settled(m) && errors_settled(m),
        |m: NodeModel| carries(m) == over(m),
    );
    somewhere_same(tree, carries, over);
    assert forall|x: NodeModel, y: NodeModel| #[trigger]
        alike(x, y, Stage::Places) implies over(x) == over(y) by {
        alike_child_sizes(x, y, Stage::Places);
    }
    somewhere_alike(tree, solved(n, window), over);
}

/// A child out of bounds is among the findings returned exactly when, in the
/// solved tree, a node with the parent's identifier of the finding has a
/// child with the child's identifier of which an edge lies beyond the box of
/// the node, on either axis.
pub proof fn out_of_bounds_is_reported_exactly(
    n: NodeModel,
    window: Size,
    parent_id: GlobalId,
    child_id: GlobalId,
)
    ensures
        findings(n, window).contains(LayoutError::OutOfBounds { parent_id, child_id })
            <==> somewhere(
            solved(n, window),
            |m: NodeModel| holds_stray_child(m, parent_id, child_id),
        ),
{
    let tree = arranged(n, window);
    let e = LayoutError::OutOfBounds { parent_id, child_id };
    let carries = |m: NodeModel| m.errors.contains(e);
    let stray = |m: NodeModel| holds_stray_child(m, parent_id, child_id);
    solve_settles(n, window);
    recorded_somewhere(tree, e);
    errors_settled_everywhere(tree);
    assert forall|m: NodeModel| settled(m) && errors_settled(m) implies carries(m) == stray(m) by {
        bounds_findings_contains(m, m.position, m.children.len() as int, e);
        joined_contains(
            overflow_findings(m),
            bounds_findings(m, m.position, m.children.len() as int),
            e,
        );
        assert forall|i: int| 0 <= i < m.children.len() implies out_of_bounds(m, m.position, i)
            == lies_outside(m, i) by {}
        if carries(m) {
            let i = choose|i: int|
                0 <= i < m.children.len() && e == (LayoutError::OutOfBounds {
                    parent_id: m.id,
                    child_id: (#[trigger] m.children[i]).id,
                }) && out_of_bounds(m, m.position, i);
        }
        if stray(m) {
            let i = choose|i: int|
                0 <= i < m.children.len() && (#[trigger] m.children[i]).id == child_id
                    && lies_outside(m, i);
        }
    }
    everywhere_follows(
        tree,
        |m: NodeModel| settled(m) && errors_settled(m),
        |m: NodeModel| carries(m) == stray(m),
    );
    somewhere_same(tree, carries, stray);
    assert forall|x: NodeModel, y: NodeModel| #[trigger]
        alike(x, y, Stage::Places) implies stray(x) == stray(y) by {
        assert forall|i: int| 0 <= i < x.children.len() implies (#[trigger] x.children[i]).id
            == y.children[i].id && lies_outside(x, i) == lies_outside(y, i) by {
            assert(alike(x.children[i], y.children[i], Stage::Places));
        }
        if stray(x) {
            let i = choose|i: int|
                0 <= i < x.children.len() && (#[trigger] x.children[i]).id == child_id
                    && lies_outside(x, i);
            assert(y.children[i].id == child_id && lies_outside(y, i));
        }
        if stray(y) {
            let i = choose|i: int|
                0 <= i < y.children.len() && (#[trigger] y.children[i]).id == child_id
                    && lies_outside(y, i);
            assert(x.children[i].id == child_id && lies_outside(x, i));
        }
    }
    somewhere_alike(tree, solved(n, window), stray);
}

} // verus!
