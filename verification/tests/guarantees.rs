use cascada::{
    solve_layout, AxisAlignment, BlockLayout, BoxSizing, EmptyLayout, GlobalId, HorizontalLayout,
    IntrinsicSize, Layout, LayoutError, OverflowAxis, Padding, Position, Size, VerticalLayout,
};

fn leaf(width: BoxSizing, height: BoxSizing) -> EmptyLayout {
    EmptyLayout::new().intrinsic_size(IntrinsicSize { width, height })
}

#[test]
fn fixed_size_is_kept_whatever_the_window() {
    let child = EmptyLayout::new().intrinsic_size(IntrinsicSize::fixed(700, 900));
    let mut root = HorizontalLayout::new()
        .intrinsic_size(IntrinsicSize::fixed(300, 200))
        .padding(Padding::all(10))
        .add_child(child);

    for window in [Size::new(0, 0), Size::new(100, 50), Size::new(5000, 5000)] {
        let errors = solve_layout(&mut root, window);
        assert_eq!(root.size(), Size::new(300, 200));
        assert_eq!(root.children()[0].size(), Size::new(700, 900));
        // the child does not fit, and that is reported, not mended
        assert!(!errors.is_empty());
    }
}

#[test]
fn three_equal_flex_children_share_evenly() {
    let child = EmptyLayout::new().intrinsic_size(IntrinsicSize::fill());
    let mut layout = HorizontalLayout::new()
        .intrinsic_size(IntrinsicSize::fill())
        .add_children(vec![child.clone(), child.clone(), child]);

    solve_layout(&mut layout, Size::new(3000, 700));

    for child in layout.children() {
        assert_eq!(child.size().width, 1000);
        assert_eq!(child.size().height, 700);
    }
}

#[test]
fn equal_flex_children_share_what_padding_and_gaps_leave() {
    let child = leaf(BoxSizing::Shrink, BoxSizing::Flex(7));
    let mut layout = VerticalLayout::new()
        .intrinsic_size(IntrinsicSize::fill())
        .padding(Padding::new(1, 2, 30, 40))
        .spacing(15)
        .add_children(vec![child.clone(), child.clone(), child.clone(), child]);

    solve_layout(&mut layout, Size::new(100, 1000));

    // (1000 - 70 - 3 * 15) / 4, rounded down
    for child in layout.children() {
        assert_eq!(child.size().height, 221);
    }
}

#[test]
fn flex_children_share_by_their_factors() {
    let narrow = leaf(BoxSizing::Flex(1), BoxSizing::Shrink);
    let wide = leaf(BoxSizing::Flex(3), BoxSizing::Shrink);
    let mut layout = HorizontalLayout::new()
        .intrinsic_size(IntrinsicSize::fill())
        .add_child(narrow)
        .add_child(wide);

    solve_layout(&mut layout, Size::new(800, 100));

    assert_eq!(layout.children()[0].size().width, 200);
    assert_eq!(layout.children()[1].size().width, 600);
}

#[test]
fn flex_shares_are_rounded_down() {
    let one = leaf(BoxSizing::Flex(1), BoxSizing::Shrink);
    let two = leaf(BoxSizing::Flex(2), BoxSizing::Shrink);
    let mut layout = HorizontalLayout::new()
        .intrinsic_size(IntrinsicSize::fill())
        .add_child(one)
        .add_child(two);

    solve_layout(&mut layout, Size::new(100, 100));

    assert_eq!(layout.children()[0].size().width, 33);
    assert_eq!(layout.children()[1].size().width, 66);
}

#[test]
fn flex_children_share_what_the_rigid_ones_leave() {
    let fixed = leaf(BoxSizing::Fixed(150), BoxSizing::Shrink);
    let flex = leaf(BoxSizing::Flex(1), BoxSizing::Shrink);
    let mut layout = HorizontalLayout::new()
        .intrinsic_size(IntrinsicSize::fill())
        .add_children(vec![fixed, flex.clone(), flex]);

    solve_layout(&mut layout, Size::new(145, 100));

    // 145 - 150 = -5 is shared: each gets -5 / 2, rounded down
    assert_eq!(layout.children()[1].size().width, -3);
    assert_eq!(layout.children()[2].size().width, -3);
}

#[test]
fn flex_factors_of_zero_get_nothing() {
    let flex = leaf(BoxSizing::Flex(0), BoxSizing::Shrink);
    let mut layout = HorizontalLayout::new()
        .intrinsic_size(IntrinsicSize::fill())
        .add_children(vec![flex.clone(), flex]);

    solve_layout(&mut layout, Size::new(500, 100));

    assert_eq!(layout.children()[0].size().width, 0);
    assert_eq!(layout.children()[1].size().width, 0);
}

#[test]
fn shrinking_blocks_wrap_their_child() {
    let inner = EmptyLayout::new().intrinsic_size(IntrinsicSize::fixed(175, 15));
    let middle = BlockLayout::new(inner).padding(Padding::all(24));
    let mut outer = BlockLayout::new(middle).padding(Padding::all(24));

    solve_layout(&mut outer, Size::new(800, 800));

    assert_eq!(outer.child().size(), Size::new(175 + 48, 15 + 48));
    assert_eq!(outer.size(), Size::new(175 + 48 + 48, 15 + 48 + 48));
}

#[test]
fn shrinking_row_takes_children_gaps_and_padding() {
    let mut row = HorizontalLayout::new()
        .padding(Padding::new(1, 2, 3, 4))
        .spacing(10)
        .add_child(EmptyLayout::new().intrinsic_size(IntrinsicSize::fixed(30, 5)))
        .add_child(EmptyLayout::new().intrinsic_size(IntrinsicSize::fixed(40, 50)))
        .add_child(EmptyLayout::new().intrinsic_size(IntrinsicSize::fixed(50, 20)));

    let errors = solve_layout(&mut row, Size::new(10, 10));

    assert_eq!(row.size(), Size::new(30 + 40 + 50 + 2 * 10 + 3, 50 + 7));
    assert!(errors.is_empty());
}

#[test]
fn a_single_child_gets_no_gap() {
    let mut column = VerticalLayout::new()
        .spacing(99)
        .add_child(EmptyLayout::new().intrinsic_size(IntrinsicSize::fixed(30, 5)));

    solve_layout(&mut column, Size::new(10, 10));

    assert_eq!(column.size(), Size::new(30, 5));
}

#[test]
fn sums_saturate() {
    let huge = EmptyLayout::new().intrinsic_size(IntrinsicSize::fixed(i32::MAX, 1));
    let mut row = HorizontalLayout::new().add_children(vec![huge.clone(), huge]);

    solve_layout(&mut row, Size::new(10, 10));

    assert_eq!(row.size(), Size::new(i32::MAX, 1));
}

fn sample_tree() -> VerticalLayout {
    let fixed = EmptyLayout::new().intrinsic_size(IntrinsicSize::fixed(120, 80));
    let flex = EmptyLayout::new().intrinsic_size(IntrinsicSize::flex(2));
    let row = HorizontalLayout::new()
        .intrinsic_size(IntrinsicSize { width: BoxSizing::Flex(1), height: BoxSizing::Shrink })
        .spacing(7)
        .padding(Padding::all(3))
        .main_axis_alignment(AxisAlignment::Center)
        .add_child(fixed.clone())
        .add_child(flex.clone());
    let block = BlockLayout::new(BlockLayout::new(flex).padding(Padding::all(5)))
        .intrinsic_size(IntrinsicSize::fixed(50, 60))
        .cross_axis_alignment(AxisAlignment::End);
    VerticalLayout::new()
        .intrinsic_size(IntrinsicSize::fill())
        .padding(Padding::new(4, 5, 6, 7))
        .spacing(11)
        .cross_axis_alignment(AxisAlignment::Center)
        .add_child(row)
        .add_child(block)
        .add_child(fixed)
}

fn geometry<L: Layout>(root: &L) -> Vec<(Size, Position)> {
    let mut all = Vec::new();
    let mut walk = root.iter();
    while let Some(node) = walk.next() {
        all.push((node.size(), node.position()));
    }
    all
}

#[test]
fn solving_again_changes_nothing() {
    let window = Size::new(333, 177);
    let mut root = sample_tree();

    let first_errors = solve_layout(&mut root, window);
    let first = geometry(&root);
    let second_errors = solve_layout(&mut root, window);
    let second = geometry(&root);

    assert_eq!(first.len(), 8);
    assert_eq!(first, second);
    assert_eq!(first_errors, second_errors);
    assert!(!first_errors.is_empty());
}

#[test]
fn main_overflow_is_reported_exactly_when_content_is_longer() {
    let id = GlobalId::new(7);
    let child = EmptyLayout::new().intrinsic_size(IntrinsicSize::fixed(40, 50));
    let row = |spacing: u32| {
        HorizontalLayout::new()
            .set_id(id)
            .intrinsic_size(IntrinsicSize::fixed(106, 50))
            .padding(Padding::new(2, 4, 0, 0))
            .spacing(spacing)
            .add_children(vec![child.clone(), child.clone()])
    };

    // 40 + 40 + 20 + 6 = 106: the content fits exactly
    let mut fits = row(20);
    let errors = solve_layout(&mut fits, Size::new(500, 500));
    assert!(!errors.contains(&LayoutError::overflow(id, OverflowAxis::MainAxis)));

    // one unit more does not fit
    let mut over = row(21);
    let errors = solve_layout(&mut over, Size::new(500, 500));
    assert!(errors.contains(&LayoutError::overflow(id, OverflowAxis::MainAxis)));
    assert!(!errors.contains(&LayoutError::overflow(id, OverflowAxis::CrossAxis)));
}

#[test]
fn cross_overflow_is_reported_exactly_when_content_is_higher() {
    let id = GlobalId::new(8);
    let column = |width: i32| {
        VerticalLayout::new()
            .set_id(id)
            .intrinsic_size(IntrinsicSize::fixed(width, 500))
            .padding(Padding::new(2, 4, 0, 0))
            .add_child(EmptyLayout::new().intrinsic_size(IntrinsicSize::fixed(10, 50)))
            .add_child(EmptyLayout::new().intrinsic_size(IntrinsicSize::fixed(40, 50)))
    };

    // the widest child and the padding: 40 + 6
    let mut fits = column(46);
    let errors = solve_layout(&mut fits, Size::new(500, 500));
    assert_eq!(errors, vec![]);

    let mut over = column(45);
    let errors = solve_layout(&mut over, Size::new(500, 500));
    assert_eq!(errors, vec![LayoutError::overflow(id, OverflowAxis::CrossAxis)]);
}

#[test]
fn block_reports_a_child_beyond_its_far_edge() {
    let parent = GlobalId::new(1);
    let child = GlobalId::new(2);
    let block = |width: i32| {
        BlockLayout::new(
            EmptyLayout::new().set_id(child).intrinsic_size(IntrinsicSize::fixed(150, 50)),
        )
        .set_id(parent)
        .intrinsic_size(IntrinsicSize::fixed(width, 50))
    };

    let mut fits = block(150);
    assert_eq!(solve_layout(&mut fits, Size::new(500, 500)), vec![]);

    let mut over = block(149);
    assert_eq!(
        solve_layout(&mut over, Size::new(500, 500)),
        vec![LayoutError::out_of_bound(parent, child)]
    );
}

#[test]
fn block_reports_a_child_before_its_near_edge() {
    let parent = GlobalId::new(1);
    let child = GlobalId::new(2);
    let mut block = BlockLayout::new(
        EmptyLayout::new().set_id(child).intrinsic_size(IntrinsicSize::fixed(10, 70)),
    )
    .set_id(parent)
    .intrinsic_size(IntrinsicSize::fixed(100, 50))
    .cross_axis_alignment(AxisAlignment::End);

    let errors = solve_layout(&mut block, Size::new(500, 500));

    // the child ends where the block ends, and so begins 20 before it
    assert_eq!(block.child().position(), Position::new(0, -20));
    assert_eq!(errors, vec![LayoutError::out_of_bound(parent, child)]);
}

#[test]
fn row_reports_children_out_of_bounds_along_its_main_axis() {
    let parent = GlobalId::new(1);
    let first = GlobalId::new(2);
    let second = GlobalId::new(3);
    let mut row = HorizontalLayout::new()
        .set_id(parent)
        .intrinsic_size(IntrinsicSize::fixed(100, 10))
        .add_child(EmptyLayout::new().set_id(first).intrinsic_size(IntrinsicSize::fixed(60, 10)))
        .add_child(EmptyLayout::new().set_id(second).intrinsic_size(IntrinsicSize::fixed(60, 10)));

    let errors = solve_layout(&mut row, Size::new(500, 500));

    assert_eq!(
        errors,
        vec![
            LayoutError::overflow(parent, OverflowAxis::MainAxis),
            LayoutError::out_of_bound(parent, second),
        ]
    );
}

#[test]
fn column_reports_a_child_that_is_too_wide_as_out_of_bounds() {
    let parent = GlobalId::new(1);
    let child = GlobalId::new(2);
    let column = |width: i32| {
        VerticalLayout::new()
            .set_id(parent)
            .intrinsic_size(IntrinsicSize::fixed(width, 100))
            .add_child(
                EmptyLayout::new().set_id(child).intrinsic_size(IntrinsicSize::fixed(60, 10)),
            )
    };

    let mut fits = column(60);
    assert_eq!(solve_layout(&mut fits, Size::new(500, 500)), vec![]);

    let mut over = column(59);
    assert_eq!(
        solve_layout(&mut over, Size::new(500, 500)),
        vec![
            LayoutError::overflow(parent, OverflowAxis::CrossAxis),
            LayoutError::out_of_bound(parent, child),
        ]
    );
}

#[test]
fn row_reports_a_child_that_is_too_high_as_out_of_bounds() {
    let parent = GlobalId::new(1);
    let child = GlobalId::new(2);
    let mut row = HorizontalLayout::new()
        .set_id(parent)
        .intrinsic_size(IntrinsicSize::fixed(100, 100))
        .add_child(EmptyLayout::new().set_id(child).intrinsic_size(IntrinsicSize::fixed(50, 200)));
    row.update_size();
    row.collect_errors();

    row.position_children();

    // the child fits along the row, but its lower edge lies at 200
    assert_eq!(row.children()[0].position(), Position::new(0, 0));
    assert_eq!(row.collect_errors(), vec![LayoutError::out_of_bound(parent, child)]);
}

#[test]
fn row_reports_a_child_that_lies_before_it_across() {
    let parent = GlobalId::new(1);
    let child = GlobalId::new(2);
    let mut row = HorizontalLayout::new()
        .set_id(parent)
        .intrinsic_size(IntrinsicSize::fixed(100, 10))
        .cross_axis_alignment(AxisAlignment::Center)
        .add_child(EmptyLayout::new().set_id(child).intrinsic_size(IntrinsicSize::fixed(50, 11)));

    let errors = solve_layout(&mut row, Size::new(500, 500));

    // (10 - 11) / 2, rounded down: the child begins one unit above the row
    assert_eq!(row.children()[0].position(), Position::new(0, -1));
    assert_eq!(
        errors,
        vec![
            LayoutError::overflow(parent, OverflowAxis::CrossAxis),
            LayoutError::out_of_bound(parent, child),
        ]
    );
}

#[test]
fn a_child_aligned_to_the_end_across_a_row_lies_beyond_it() {
    let parent = GlobalId::new(1);
    let child = GlobalId::new(2);
    let mut row = HorizontalLayout::new()
        .set_id(parent)
        .intrinsic_size(IntrinsicSize::fixed(100, 50))
        .padding(Padding::new(0, 0, 0, 5))
        .cross_axis_alignment(AxisAlignment::End)
        .add_child(EmptyLayout::new().set_id(child).intrinsic_size(IntrinsicSize::fixed(10, 10)));

    let errors = solve_layout(&mut row, Size::new(500, 500));

    // its near edge lies before the far padding, and so its far edge beyond
    assert_eq!(row.children()[0].position(), Position::new(0, 45));
    assert_eq!(errors, vec![LayoutError::out_of_bound(parent, child)]);
}

#[test]
fn findings_come_parents_first() {
    let leaf = EmptyLayout::new()
        .set_id(GlobalId::new(3))
        .intrinsic_size(IntrinsicSize::fixed(20, 20));
    let row = HorizontalLayout::new()
        .set_id(GlobalId::new(2))
        .intrinsic_size(IntrinsicSize::fixed(10, 10))
        .add_child(leaf);
    let mut column = VerticalLayout::new()
        .set_id(GlobalId::new(1))
        .intrinsic_size(IntrinsicSize::fixed(0, 0))
        .add_child(row);

    let errors = solve_layout(&mut column, Size::new(500, 500));

    assert_eq!(
        errors,
        vec![
            LayoutError::overflow(GlobalId::new(1), OverflowAxis::CrossAxis),
            LayoutError::overflow(GlobalId::new(1), OverflowAxis::MainAxis),
            LayoutError::out_of_bound(GlobalId::new(1), GlobalId::new(2)),
            LayoutError::overflow(GlobalId::new(2), OverflowAxis::CrossAxis),
            LayoutError::overflow(GlobalId::new(2), OverflowAxis::MainAxis),
            LayoutError::out_of_bound(GlobalId::new(2), GlobalId::new(3)),
        ]
    );
    // nothing stays in the tree
    assert!(column.collect_errors().is_empty());
}

#[test]
fn single_child_is_centered() {
    let child = EmptyLayout::new().intrinsic_size(IntrinsicSize::fixed(30, 8));
    let mut row = HorizontalLayout::new()
        .intrinsic_size(IntrinsicSize::fixed(101, 21))
        .padding(Padding::new(50, 1, 2, 3))
        .main_axis_alignment(AxisAlignment::Center)
        .cross_axis_alignment(AxisAlignment::Center)
        .add_child(child);
    row.set_position(Position::new(1000, -40));

    solve_layout(&mut row, Size::new(500, 500));

    // halves are rounded down: (101 - 30) / 2 = 35 and (21 - 8) / 2 = 6
    assert_eq!(row.children()[0].position(), Position::new(1000 + 35, -40 + 6));
}

#[test]
fn a_child_that_is_too_long_is_centered_too() {
    let child = EmptyLayout::new().intrinsic_size(IntrinsicSize::fixed(5, 5));
    let mut block = BlockLayout::new(child)
        .intrinsic_size(IntrinsicSize::fixed(2, 5))
        .main_axis_alignment(AxisAlignment::Center);

    solve_layout(&mut block, Size::new(500, 500));

    // (2 - 5) / 2, rounded down
    assert_eq!(block.child().position().x, -2);
}

#[test]
fn single_child_is_aligned_to_the_end() {
    let child = EmptyLayout::new().intrinsic_size(IntrinsicSize::fixed(30, 8));
    let mut column = VerticalLayout::new()
        .intrinsic_size(IntrinsicSize::fixed(100, 200))
        .padding(Padding::new(1, 2, 3, 4))
        .main_axis_alignment(AxisAlignment::End)
        .add_child(child);
    column.set_position(Position::new(10, 20));

    solve_layout(&mut column, Size::new(500, 500));

    // far edge, less the far padding, less the child
    assert_eq!(column.children()[0].position().y, 20 + 200 - 4 - 8);
    assert_eq!(column.children()[0].position().x, 10 + 1);
}

#[test]
fn rows_and_columns_put_children_at_the_far_padding_across() {
    let child = EmptyLayout::new().intrinsic_size(IntrinsicSize::fixed(30, 8));
    let mut row = HorizontalLayout::new()
        .intrinsic_size(IntrinsicSize::fixed(100, 200))
        .padding(Padding::new(1, 2, 3, 4))
        .cross_axis_alignment(AxisAlignment::End)
        .add_child(child);

    solve_layout(&mut row, Size::new(500, 500));

    assert_eq!(row.children()[0].position(), Position::new(1, 200 - 4));
}

#[test]
fn children_run_from_the_end_with_gaps() {
    let child = |width: i32| EmptyLayout::new().intrinsic_size(IntrinsicSize::fixed(width, 1));
    let mut row = HorizontalLayout::new()
        .intrinsic_size(IntrinsicSize::fixed(100, 10))
        .padding(Padding::new(0, 5, 0, 0))
        .spacing(3)
        .main_axis_alignment(AxisAlignment::End)
        .add_children(vec![child(10), child(20), child(30)]);

    solve_layout(&mut row, Size::new(500, 500));

    assert_eq!(row.children()[2].position().x, 100 - 5 - 30);
    assert_eq!(row.children()[1].position().x, 100 - 5 - 30 - 3 - 20);
    assert_eq!(row.children()[0].position().x, 100 - 5 - 30 - 3 - 20 - 3 - 10);
}

#[test]
fn scroll_offset_adds_up_and_stays() {
    let child = EmptyLayout::new().intrinsic_size(IntrinsicSize::fixed(10, 10));
    let mut column = VerticalLayout::new()
        .padding(Padding::all(2))
        .spacing(1)
        .add_children(vec![child.clone(), child]);
    column.scroll(-30);
    column.scroll(5);

    solve_layout(&mut column, Size::new(500, 500));
    assert_eq!(column.children()[0].position(), Position::new(2, 2 - 25));
    assert_eq!(column.children()[1].position(), Position::new(2, 2 + 10 + 1 - 25));

    solve_layout(&mut column, Size::new(500, 500));
    assert_eq!(column.children()[0].position(), Position::new(2, 2 - 25));
}

#[test]
fn root_keeps_a_maximum_width_that_was_set_but_not_a_height() {
    let mut root =
        EmptyLayout::new().max_width(20).max_height(30).intrinsic_size(IntrinsicSize::fill());

    solve_layout(&mut root, Size::new(200, 100));

    assert_eq!(root.size(), Size::new(20, 100));
    assert_eq!(root.constraints().max_width, Some(20));
    assert_eq!(root.constraints().max_height, 100);
}

#[test]
fn findings_left_from_earlier_passes_are_discarded() {
    let mut column = VerticalLayout::new()
        .intrinsic_size(IntrinsicSize::fixed(0, 0))
        .add_child(EmptyLayout::new().intrinsic_size(IntrinsicSize::fixed(5, 5)));

    column.solve_min_constraints();
    column.update_size();
    assert!(column.main_axis_overflow());
    assert!(column.cross_axis_overflow());
    assert!(column.overflow());
    // the same overflow is not recorded twice
    column.update_size();
    assert_eq!(column.collect_errors().len(), 2);
    assert!(!column.overflow());

    column.update_size();
    let errors = solve_layout(&mut column, Size::new(10, 10));
    assert_eq!(errors.len(), 3);
}
