use cascada::{
    solve_layout, AxisAlignment, BlockLayout, BoxConstraints, BoxSizing, EmptyLayout, GlobalId,
    HorizontalLayout, IntrinsicSize, Layout, LayoutError, OverflowAxis, Padding, Position, Size,
    VerticalLayout,
};

#[test]
fn a_leaf_keeps_the_minimum_that_it_has_unless_it_is_fixed() {
    let mut leaf = EmptyLayout::new().min_width(7).min_height(9).intrinsic_size(IntrinsicSize {
        width: BoxSizing::Flex(1),
        height: BoxSizing::Fixed(3),
    });
    assert_eq!(leaf.solve_min_constraints(), (7, 3));
    assert_eq!(leaf.constraints().min_width, 7);
    assert_eq!(leaf.constraints().min_height, 3);
}

#[test]
fn the_passes_do_nothing_below_a_leaf() {
    let mut leaf = EmptyLayout::new().max_width(5).max_height(6);
    let before = leaf.clone();
    leaf.solve_max_constraints(Size::new(100, 100));
    leaf.position_children();
    assert_eq!(leaf, before);
    assert!(leaf.collect_errors().is_empty());
}

#[test]
fn a_block_leaves_the_maximum_of_a_shrinking_child_alone() {
    let child = EmptyLayout::new().max_width(11).max_height(12);
    let mut block = BlockLayout::new(child).padding(Padding::all(5));
    block.solve_max_constraints(Size::new(100, 200));
    assert_eq!(
        block.child().constraints(),
        BoxConstraints { max_width: Some(11), max_height: 12, min_width: 0, min_height: 0 }
    );
}

#[test]
fn a_block_gives_a_fixed_child_its_fixed_size() {
    let child = EmptyLayout::new().intrinsic_size(IntrinsicSize::fixed(300, 400));
    let mut block = BlockLayout::new(child).padding(Padding::all(5));
    block.solve_max_constraints(Size::new(100, 200));
    assert_eq!(block.child().constraints().max_width, Some(300));
    assert_eq!(block.child().constraints().max_height, 400);
}

#[test]
fn a_block_hands_down_what_is_left_inside_its_padding() {
    let leaf = EmptyLayout::new().intrinsic_size(IntrinsicSize::fill());
    let inner = BlockLayout::new(leaf).padding(Padding::new(1, 2, 3, 4));
    let mut outer = BlockLayout::new(inner).padding(Padding::all(10));

    outer.solve_max_constraints(Size::new(100, 200));

    // the inner block shrinks and so is given no maximum, but it is told of
    // the space, and hands on what its own padding leaves of it
    assert_eq!(outer.child().constraints().max_width, None);
    assert_eq!(outer.child().children()[0].constraints().max_width, Some(100 - 20 - 3));
    assert_eq!(outer.child().children()[0].constraints().max_height, 200 - 20 - 7);
}

#[test]
fn a_column_tells_each_child_of_the_space_that_it_gives_it() {
    let leaf = EmptyLayout::new().intrinsic_size(IntrinsicSize::fill());
    let block = BlockLayout::new(leaf)
        .intrinsic_size(IntrinsicSize::fill())
        .padding(Padding::all(10));
    let mut column = VerticalLayout::new().intrinsic_size(IntrinsicSize::fill()).add_child(block);

    solve_layout(&mut column, Size::new(100, 300));

    assert_eq!(column.children()[0].size(), Size::new(100, 300));
    assert_eq!(column.children()[0].children()[0].size(), Size::new(80, 280));
}

#[test]
fn a_row_gives_each_child_its_limits() {
    let fixed = EmptyLayout::new().intrinsic_size(IntrinsicSize::fixed(30, 40));
    let shrinking = EmptyLayout::new().min_width(5).min_height(6);
    let flexible = EmptyLayout::new().intrinsic_size(IntrinsicSize::flex(2));
    let mut row = HorizontalLayout::new()
        .intrinsic_size(IntrinsicSize::fill())
        .padding(Padding::new(1, 2, 3, 4))
        .spacing(10)
        .add_child(fixed)
        .add_child(shrinking)
        .add_child(flexible);
    row.set_max_width(200);
    row.set_max_height(100);
    row.solve_min_constraints();
    row.solve_max_constraints(Size::new(0, 0));

    let limits: Vec<(Option<i32>, i32)> = row
        .children()
        .iter()
        .map(|c| (c.constraints().max_width, c.constraints().max_height))
        .collect();
    // 200 less the padding of 3, the rigid children of 30 and 5, and two gaps
    assert_eq!(limits, vec![(Some(30), 40), (Some(5), 6), (Some(142), 93)]);
}

#[test]
fn a_shrinking_row_shares_out_the_minimums_of_its_flexible_children() {
    let fixed = EmptyLayout::new().intrinsic_size(IntrinsicSize::fixed(30, 40));
    let flexible = |factor: u8, least: i32| {
        EmptyLayout::new().min_width(least).intrinsic_size(IntrinsicSize {
            width: BoxSizing::Flex(factor),
            height: BoxSizing::Shrink,
        })
    };
    let mut row = HorizontalLayout::new()
        .padding(Padding::all(7))
        .spacing(2)
        .add_child(flexible(1, 10))
        .add_child(fixed)
        .add_child(flexible(3, 50));

    let errors = solve_layout(&mut row, Size::new(1000, 1000));

    assert_eq!(row.size(), Size::new(10 + 30 + 50 + 4 + 14, 40 + 14));
    assert_eq!(row.children()[0].size().width, 15);
    assert_eq!(row.children()[2].size().width, 45);
    assert_eq!(errors, vec![]);
}

#[test]
fn builders_set_what_they_name() {
    let column = VerticalLayout::new()
        .set_id(GlobalId::new(4))
        .with_label("column")
        .intrinsic_size(IntrinsicSize::fixed(1, 2))
        .min_width(3)
        .min_height(4)
        .max_width(5)
        .max_height(6);
    assert_eq!(column.id(), GlobalId::new(4));
    assert_eq!(column.label(), "column");
    assert_eq!(column.get_intrinsic_size(), IntrinsicSize::fixed(1, 2));
    assert_eq!(
        column.constraints(),
        BoxConstraints { min_width: 3, min_height: 4, max_width: Some(5), max_height: 6 }
    );
    assert_eq!(column.size(), Size::default());
    assert_eq!(column.position(), Position::default());
    assert!(column.children().is_empty());

    assert_eq!(VerticalLayout::default().id(), GlobalId::default());
    assert_eq!(HorizontalLayout::default().label(), "HorizontalLayout");
    assert_eq!(EmptyLayout::default(), EmptyLayout::new());
    assert_eq!(BlockLayout::default().children().len(), 1);
}

#[test]
fn findings_stay_on_the_node_until_they_are_collected() {
    let id = GlobalId::new(2);
    let mut block = BlockLayout::new(
        EmptyLayout::new().set_id(GlobalId::new(3)).intrinsic_size(IntrinsicSize::fixed(9, 9)),
    )
    .set_id(id)
    .main_axis_alignment(AxisAlignment::Start);
    block.update_size();
    block.position_children();
    block.position_children();

    let found = LayoutError::out_of_bound(id, GlobalId::new(3));
    assert_eq!(block.iter().next().unwrap().errors(), &[found, found]);
    assert_eq!(block.collect_errors(), vec![found, found]);
    assert!(block.iter().next().unwrap().errors().is_empty());
}

#[test]
fn only_rows_and_columns_overflow() {
    let child = EmptyLayout::new().intrinsic_size(IntrinsicSize::fixed(50, 50));
    let mut block = BlockLayout::new(child).intrinsic_size(IntrinsicSize::fixed(10, 10));
    let errors = solve_layout(&mut block, Size::new(100, 100));
    assert!(errors.iter().all(|e| matches!(e, LayoutError::OutOfBounds { .. })));
    assert_eq!(errors.len(), 1);

    let child = EmptyLayout::new().intrinsic_size(IntrinsicSize::fixed(50, 50));
    let mut row = HorizontalLayout::new()
        .set_id(GlobalId::new(1))
        .intrinsic_size(IntrinsicSize::fixed(10, 10))
        .add_child(child);
    let errors = solve_layout(&mut row, Size::new(100, 100));
    assert_eq!(
        errors,
        vec![
            LayoutError::overflow(GlobalId::new(1), OverflowAxis::CrossAxis),
            LayoutError::overflow(GlobalId::new(1), OverflowAxis::MainAxis),
            LayoutError::out_of_bound(GlobalId::new(1), GlobalId::new(0)),
        ]
    );
}
