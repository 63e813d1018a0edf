use cascada::{
    solve_layout, AxisAlignment, BlockLayout, BoxSizing, EmptyLayout, IntrinsicSize, Layout,
    Padding, Size,
};

/// Hundredths of a unit, for the cases that work with fractions of one.
fn block_hundredths(value: f64) -> i32 {
    (value * 100.0).round() as i32
}

#[test]
fn block_flex_max_constraints() {
    let layout = EmptyLayout::new().intrinsic_size(IntrinsicSize::fill());

    let mut layout = BlockLayout::new(layout);
    layout.solve_max_constraints(Size::new(100, 200));
    assert_eq!(layout.child().constraints().max_width.unwrap(), 100);
    assert_eq!(layout.child().constraints().max_height, 200);
}

#[test]
fn block_flex_max_constraints_with_padding() {
    let layout = EmptyLayout::new().intrinsic_size(IntrinsicSize::fill());

    let mut layout = BlockLayout::new(layout).padding(Padding::new(10, 15, 20, 25));
    layout.solve_max_constraints(Size::new(100, 200));
    assert_eq!(layout.child().constraints().max_width.unwrap(), 100 - 25);
    assert_eq!(layout.child().constraints().max_height, 200 - 45);
}

#[test]
fn block_fixed_min_constraints() {
    let child = EmptyLayout::default();
    let mut layout = BlockLayout::new(child).intrinsic_size(IntrinsicSize::fixed(20, 500));
    layout.solve_min_constraints();

    assert_eq!(layout.constraints().min_width, 20);
    assert_eq!(layout.constraints().min_height, 500);
}

#[test]
fn block_no_padding_in_fixed_min_constraints() {
    let child = EmptyLayout::new().intrinsic_size(IntrinsicSize::fixed(
        block_hundredths(24.2),
        block_hundredths(24.0),
    ));

    let mut layout = BlockLayout::new(child).intrinsic_size(IntrinsicSize::fixed(
        block_hundredths(20.0),
        block_hundredths(500.0),
    ));
    layout.solve_min_constraints();
    let layout = layout.padding(Padding::all(block_hundredths(24.0) as u32));

    assert_eq!(layout.constraints().min_width, block_hundredths(20.0));
    assert_eq!(layout.constraints().min_height, block_hundredths(500.0));
}

#[test]
fn block_shrink_min_constraints() {
    let child = EmptyLayout::new().intrinsic_size(IntrinsicSize::fixed(20, 20));
    let mut layout = BlockLayout::new(child).intrinsic_size(IntrinsicSize::shrink());
    layout.solve_min_constraints();

    assert_eq!(layout.constraints().min_width, 20);
    assert_eq!(layout.constraints().min_height, 20);
}

#[test]
fn block_include_padding_shrink_min_constraints() {
    let child = EmptyLayout::new().intrinsic_size(IntrinsicSize::fixed(20, 20));
    let mut layout = BlockLayout::new(child)
        .intrinsic_size(IntrinsicSize::shrink())
        .padding(Padding::new(10, 15, 93, 53));
    layout.solve_min_constraints();

    assert_eq!(layout.constraints().min_width, 20 + 10 + 15);
    assert_eq!(layout.constraints().min_height, 20 + 93 + 53);
}

#[test]
fn block_shrink_sizing() {
    let window = Size::new(800, 800);
    let child = EmptyLayout::new().intrinsic_size(IntrinsicSize::fixed(200, 200));

    let mut root = BlockLayout::new(child).padding(Padding::all(24));
    solve_layout(&mut root, window);

    let value = 24 * 2 + 200;
    assert_eq!(root.size(), Size::unit(value));
}

#[test]
fn block_align_main_axis_start() {
    let child = EmptyLayout::new();
    let mut root = BlockLayout::new(child).padding(Padding::new(
        0,
        block_hundredths(24.0) as u32,
        block_hundredths(24.24) as u32,
        block_hundredths(24.2) as u32,
    ));
    root.position_children();
    let pos = root.child().position();
    assert_eq!(pos.x, root.position().x);
    let mut root = root.padding(Padding::new(
        block_hundredths(10.0) as u32,
        block_hundredths(24.0) as u32,
        block_hundredths(24.24) as u32,
        block_hundredths(24.2) as u32,
    ));
    root.position_children();
    assert_eq!(root.child().position().x, root.position().x + block_hundredths(10.0));
}

#[test]
fn block_align_main_axis_end() {
    let child = EmptyLayout::new();
    let mut root = BlockLayout::new(child)
        .intrinsic_size(IntrinsicSize::fixed(200, 200))
        .main_axis_alignment(AxisAlignment::End);
    root.update_size();
    root.position_children();
    let pos = root.child().position();
    assert_eq!(pos.x, 200);
}

#[test]
fn block_align_cross_axis_start() {
    let child = EmptyLayout::new();
    let mut root = BlockLayout::new(child);
    root.set_y(50);
    root.position_children();
    let pos = root.child().position();
    assert_eq!(pos.y, 50);
}

#[test]
fn block_align_cross_axis_start_uses_top_padding() {
    let child = EmptyLayout::new();
    let mut root = BlockLayout::new(child).padding(Padding::new(0, 0, 10, 0));
    root.set_y(50);
    root.position_children();
    let pos = root.child().position();
    assert_eq!(pos.y, 60);
}

#[test]
fn block_align_main_axis_end_uses_right_padding() {
    let child = EmptyLayout::new();
    let mut root = BlockLayout::new(child)
        .padding(Padding::new(
            block_hundredths(20.0) as u32,
            block_hundredths(50.0) as u32,
            block_hundredths(24.24) as u32,
            block_hundredths(24.2) as u32,
        ))
        .intrinsic_size(IntrinsicSize::fixed(block_hundredths(200.0), block_hundredths(200.0)))
        .main_axis_alignment(AxisAlignment::End);
    root.update_size();
    root.position_children();
    let pos = root.child().position();
    assert_eq!(pos.x, block_hundredths(200.0 - 50.0));
}

#[test]
fn block_nested_shrink() {
    let window = Size::new(800, 800);

    let inner_child = EmptyLayout::new().intrinsic_size(IntrinsicSize::fixed(175, 15));

    let child = BlockLayout::new(inner_child).padding(Padding::all(24));

    let mut root = BlockLayout::new(child);

    solve_layout(&mut root, window);

    let inner_size = Size::new(175, 15);
    let child_size = inner_size + 24 * 2;

    assert_eq!(root.size(), child_size);
    assert_eq!(root.child().size(), child_size);
    assert_eq!(root.child().children()[0].size(), inner_size);
}

#[test]
fn block_grow() {
    let window = Size::new(800, 800);
    let child = EmptyLayout::new().intrinsic_size(IntrinsicSize::fill());

    let padding = Padding::all(24);
    let mut root = BlockLayout::new(child)
        .intrinsic_size(IntrinsicSize { width: BoxSizing::Flex(1), height: BoxSizing::Flex(1) })
        .padding(padding);

    solve_layout(&mut root, window);

    let mut child_size = window;
    child_size.width -= padding.horizontal_sum() as i32;
    child_size.height -= padding.vertical_sum() as i32;
    assert_eq!(root.size(), window);
    assert_eq!(root.child().size(), child_size);
}

#[test]
fn block_inner_grow() {
    let window = Size::new(800, 800);
    let inner_child = EmptyLayout::new().intrinsic_size(IntrinsicSize::fill());

    let child = BlockLayout::new(inner_child).intrinsic_size(IntrinsicSize::fill());

    let padding = Padding::all(24);
    let mut root = BlockLayout::new(child).intrinsic_size(IntrinsicSize::fill()).padding(padding);

    solve_layout(&mut root, window);

    let mut child_size = window;
    child_size.width -= padding.horizontal_sum() as i32;
    child_size.height -= padding.vertical_sum() as i32;
    assert_eq!(root.size(), window);
    assert_eq!(root.child().size(), child_size);
    assert_eq!(root.child().size(), root.child().children()[0].size());
}
