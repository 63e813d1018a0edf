use cascada::{
    Axis, AxisAlignment, Bounds, BoxConstraints, BoxSizing, EmptyLayout, GlobalId, IntrinsicSize,
    Layout, LayoutError, OverflowAxis, Padding, Position, Size,
};

#[test]
fn size_is_made_of_width_and_height() {
    assert_eq!(Size::new(10, 24), Size { width: 10, height: 24 });
    assert_eq!(Size::unit(20), Size { width: 20, height: 20 });
    assert_eq!(Size::default(), Size::new(0, 0));
    assert_eq!(Size::from((20, 40)), Size::new(20, 40));
    assert_eq!(Size::new(3, 4).along(Axis::Horizontal), 3);
    assert_eq!(Size::new(3, 4).along(Axis::Vertical), 4);
}

#[test]
fn size_arithmetic_is_component_wise() {
    assert_eq!(Size::unit(20) + Size::unit(30), Size::unit(50));
    assert_eq!(Size::new(20, 70) + 30, Size::new(50, 100));
    assert_eq!(Size::unit(100) - Size::new(50, 30), Size::new(50, 70));
    assert_eq!(Size::new(50, 100) - 50, Size::new(0, 50));
    assert_eq!(Size::new(i32::MAX, i32::MIN) + Size::new(1, -1), Size::new(i32::MAX, i32::MIN));
    assert_eq!(Size::new(i32::MIN, 0) - 1, Size::new(i32::MIN, -1));
}

#[test]
fn position_is_made_of_x_and_y() {
    assert_eq!(Position::new(20, 15), Position { x: 20, y: 15 });
    assert_eq!(Position::unit(500), Position { x: 500, y: 500 });
    assert_eq!(Position::default(), Position::new(0, 0));
    let mut position = Position::new(0, 0);
    position.translate(40, 100);
    assert_eq!(position, Position::new(40, 100));
    position.translate(i32::MAX, i32::MIN);
    assert_eq!(position, Position::new(i32::MAX, i32::MIN + 100));
}

#[test]
fn position_arithmetic_is_component_wise() {
    assert_eq!(Position::new(1, 2) + Position::new(10, 20), Position::new(11, 22));
    assert_eq!(Position::new(1, 2) - Position::new(10, 20), Position::new(-9, -18));
    assert_eq!(Position::new(1, 2) + 5, Position::new(6, 7));
    assert_eq!(Position::new(1, 2) - 5, Position::new(-4, -3));
    assert_eq!(Position::new(i32::MAX, 0) + 5, Position::new(i32::MAX, 5));
}

#[test]
fn bounds_hold_the_edges() {
    let size = Size::new(250, 100);
    let position = Position::new(10, 0);

    let bounds = Bounds::new(position, size);
    assert_eq!(bounds.x, [10, 260]);
    assert_eq!(bounds.y, [0, 100]);

    assert!(bounds.within(&Position::new(50, 45)));
    assert!(!bounds.within(&Position::new(1550, 445)));
    // the edges themselves are outside
    assert!(!bounds.within(&Position::new(10, 45)));
    assert!(!bounds.within(&Position::new(260, 45)));
    assert!(!bounds.within(&Position::new(50, 0)));
    assert!(!bounds.within(&Position::new(50, 100)));
    assert!(bounds.within(&Position::new(11, 1)));
    assert!(bounds.within(&Position::new(259, 99)));

    let far = Bounds::new(Position::new(i32::MAX, 5), Size::new(10, 10));
    assert_eq!(far.x, [i32::MAX, i32::MAX]);
    assert_eq!(Bounds::default(), Bounds { x: [0, 0], y: [0, 0] });

    let mut leaf = EmptyLayout::new().intrinsic_size(IntrinsicSize::fixed(3, 4));
    leaf.set_position(Position::new(1, 2));
    leaf.update_size();
    assert_eq!(leaf.bounds(), Bounds { x: [1, 4], y: [2, 6] });
}

#[test]
fn padding_adds_up() {
    let padding = Padding::symmetric(10, 20);
    assert_eq!(padding.top, 10);
    assert_eq!(padding.left, 20);
    assert_eq!(padding.left, padding.right);
    assert_eq!(padding.bottom, padding.top);
    assert_eq!(padding.vertical_sum(), 20);
    assert_eq!(padding.horizontal_sum(), 40);
    assert_eq!(padding.sum(), 60);

    let padding = Padding::all(24);
    assert_eq!(padding, Padding::new(24, 24, 24, 24));
    assert_eq!(padding.sum(), 24 * 4);
    assert_eq!(Padding::default(), Padding::all(0));

    let widest = Padding::all(u32::MAX);
    assert_eq!(widest.horizontal_sum(), 2 * u32::MAX as i64);
    assert_eq!(widest.sum(), 4 * u32::MAX as i64);

    let padding = Padding::new(1, 2, 3, 4);
    assert_eq!(padding.near(Axis::Horizontal), 1);
    assert_eq!(padding.far(Axis::Horizontal), 2);
    assert_eq!(padding.near(Axis::Vertical), 3);
    assert_eq!(padding.far(Axis::Vertical), 4);
    assert_eq!(padding.along(Axis::Vertical), 7);
}

#[test]
fn intrinsic_sizes() {
    assert_eq!(
        IntrinsicSize::fill(),
        IntrinsicSize { width: BoxSizing::Flex(1), height: BoxSizing::Flex(1) }
    );
    assert_eq!(
        IntrinsicSize::flex(8),
        IntrinsicSize { width: BoxSizing::Flex(8), height: BoxSizing::Flex(8) }
    );
    assert_eq!(
        IntrinsicSize::shrink(),
        IntrinsicSize { width: BoxSizing::Shrink, height: BoxSizing::Shrink }
    );
    assert_eq!(
        IntrinsicSize::fixed(100, 50),
        IntrinsicSize { width: BoxSizing::Fixed(100), height: BoxSizing::Fixed(50) }
    );
    assert_eq!(IntrinsicSize::from(Size::new(100, 50)), IntrinsicSize::fixed(100, 50));
    assert_eq!(IntrinsicSize::default(), IntrinsicSize::shrink());
    assert_eq!(BoxSizing::default(), BoxSizing::Shrink);
    assert_eq!(IntrinsicSize::fixed(1, 2).along(Axis::Vertical), BoxSizing::Fixed(2));
}

#[test]
fn constraints_start_at_nothing() {
    let constraints = BoxConstraints::new();
    assert_eq!(constraints.max_width, None);
    assert_eq!(constraints.max_height, 0);
    assert_eq!(constraints.min_width, 0);
    assert_eq!(constraints.min_height, 0);
    assert_eq!(BoxConstraints::default(), constraints);
    assert_eq!(constraints.max_along(Axis::Horizontal), 0);

    let mut constraints = BoxConstraints { min_width: 1, min_height: 2, ..constraints };
    constraints.limit(Axis::Horizontal, 5);
    constraints.limit(Axis::Vertical, 6);
    assert_eq!(constraints.max_width, Some(5));
    assert_eq!(constraints.max_along(Axis::Horizontal), 5);
    assert_eq!(constraints.max_along(Axis::Vertical), 6);
    assert_eq!(constraints.min_along(Axis::Horizontal), 1);
    assert_eq!(constraints.min_along(Axis::Vertical), 2);
}

#[test]
fn setters_set_one_thing() {
    let mut leaf = EmptyLayout::new().min_width(1).min_height(2).max_width(3).max_height(4);
    assert_eq!(
        leaf.constraints(),
        BoxConstraints { min_width: 1, min_height: 2, max_width: Some(3), max_height: 4 }
    );
    leaf.set_min_width(10);
    leaf.set_min_height(20);
    leaf.set_max_width(30);
    leaf.set_max_height(40);
    assert_eq!(
        leaf.constraints(),
        BoxConstraints { min_width: 10, min_height: 20, max_width: Some(30), max_height: 40 }
    );
    leaf.set_x(5);
    assert_eq!(leaf.position(), Position::new(5, 0));
    leaf.set_y(6);
    assert_eq!(leaf.position(), Position::new(5, 6));
    assert_eq!(leaf.get_intrinsic_size(), IntrinsicSize::shrink());
    // a leaf that shrinks is as large as its minimum
    leaf.update_size();
    assert_eq!(leaf.size(), Size::new(10, 20));
}

#[test]
fn identifiers_and_findings() {
    assert_eq!(GlobalId::new(17).value(), 17);
    assert_eq!(GlobalId::default(), GlobalId::new(0));
    assert_ne!(GlobalId::new(1), GlobalId::new(2));
    assert_eq!(AxisAlignment::default(), AxisAlignment::Start);
    assert_eq!(Axis::Horizontal.cross(), Axis::Vertical);
    assert_eq!(Axis::Vertical.cross(), Axis::Horizontal);

    let parent = GlobalId::new(1);
    let child = GlobalId::new(2);
    assert_eq!(
        LayoutError::out_of_bound(parent, child),
        LayoutError::OutOfBounds { parent_id: parent, child_id: child }
    );
    assert_eq!(
        LayoutError::overflow(child, OverflowAxis::CrossAxis),
        LayoutError::Overflow { id: child, axis: OverflowAxis::CrossAxis }
    );
    assert_ne!(
        LayoutError::overflow(child, OverflowAxis::CrossAxis),
        LayoutError::overflow(child, OverflowAxis::MainAxis)
    );
}

#[test]
fn values_are_ordered_field_by_field() {
    assert!(GlobalId::new(1) < GlobalId::new(2));
    assert_eq!(GlobalId::new(3).max(GlobalId::new(2)), GlobalId::new(3));
    assert!(AxisAlignment::Start < AxisAlignment::Center);
    assert!(AxisAlignment::Center < AxisAlignment::End);
    assert!(Size::new(1, 9) < Size::new(2, 0));
    assert!(Size::new(1, 1) < Size::new(1, 2));
    assert!(Position::new(0, 5) > Position::new(0, 4));
    assert!(Padding::new(0, 0, 0, 1) > Padding::all(0));
    assert!(Bounds { x: [0, 1], y: [0, 0] } < Bounds { x: [0, 2], y: [0, 0] });
    assert!(BoxSizing::Fixed(100) < BoxSizing::Shrink);
    assert!(BoxSizing::Shrink < BoxSizing::Flex(0));
    assert!(BoxSizing::Flex(1) < BoxSizing::Flex(2));
    assert!(IntrinsicSize::fixed(1, 2) < IntrinsicSize::shrink());
    assert!(BoxConstraints::new() < BoxConstraints { max_width: Some(0), ..BoxConstraints::new() });
    assert!(OverflowAxis::MainAxis < OverflowAxis::CrossAxis);
}
