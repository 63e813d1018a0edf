use cascada::{
    solve_layout, AxisAlignment, EmptyLayout, HorizontalLayout, IntrinsicSize, Layout, Padding,
    Position, Size,
};

#[test]
fn single_child_horizontal_center_alignment() {
    let window = Size::new(500, 500);

    let child_1 = EmptyLayout::new().intrinsic_size(IntrinsicSize::fixed(250, 350));
    let mut root = HorizontalLayout::new()
        .main_axis_alignment(AxisAlignment::Center)
        .cross_axis_alignment(AxisAlignment::Center)
        .padding(Padding::all(24))
        .intrinsic_size(IntrinsicSize::fill())
        .add_child(child_1);

    solve_layout(&mut root, window);

    let child_y = (root.size().height - root.children()[0].size().height) / 2 + root.position().y;
    let child_x = (root.size().width - root.children()[0].size().width) / 2 + root.position().x;

    assert_eq!(root.children()[0].position(), Position::new(child_x, child_y));
}

#[test]
fn horizontal_center_alignment() {
    let window = Size::new(1500, 1500);

    let child_1 = EmptyLayout::new().intrinsic_size(IntrinsicSize::fixed(250, 350));
    let child_2 = child_1.clone();
    let child_3 = child_1.clone();

    let mut root = HorizontalLayout::new()
        .main_axis_alignment(AxisAlignment::Center)
        .cross_axis_alignment(AxisAlignment::Center)
        .padding(Padding::all(24))
        .spacing(50)
        .intrinsic_size(IntrinsicSize::fill())
        .add_children(vec![child_1, child_2, child_3]);

    solve_layout(&mut root, window);

    let width_sum = (250 * 3) + (50 * 2);
    let center_start = (root.size().width - width_sum) / 2;

    let child_1_pos = Position {
        x: center_start,
        y: (root.size().height - root.children()[0].size().height) / 2 + root.position().y,
    };

    let child_2_pos = Position {
        x: center_start + root.children()[0].size().width + 50,
        y: (root.size().height - root.children()[1].size().height) / 2 + root.position().y,
    };

    // A bit long but allow it
    let child_3_pos = Position {
        x: center_start
            + root.children()[0].size().width
            + root.children()[1].size().width
            + (50 * 2),
        y: (root.size().height - root.children()[2].size().height) / 2 + root.position().y,
    };

    assert_eq!(root.children()[0].position(), child_1_pos);
    assert_eq!(root.children()[1].position(), child_2_pos);
    assert_eq!(root.children()[2].position(), child_3_pos);
}
