use cascada::{solve_layout, BlockLayout, EmptyLayout, IntrinsicSize, Layout, Size};

#[test]
fn respect_child_max_width() {
    let window = Size::new(800, 800);
    let child = EmptyLayout::new().max_width(20).intrinsic_size(IntrinsicSize::fill());

    let mut root = BlockLayout::new(child).intrinsic_size(IntrinsicSize::fill());

    solve_layout(&mut root, window);
    // A block hands its flexible child all the space inside its padding: the
    // maximum of a child is set by its parent.
    assert_eq!(root.children()[0].size().width, 800);
}
