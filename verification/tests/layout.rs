use rule_widget::geometry::{Length, Point, Rectangle, Size};
use rule_widget::layout::{Limits, Node};

#[test]
fn resolved_size_stays_within_the_limits() {
    let limits = Limits::new(Size::new(20, 30), Size::new(200, 300));
    let intents = [
        Length::Fill,
        Length::FillPortion(1),
        Length::FillPortion(7),
        Length::Shrink,
        Length::Fixed(0),
        Length::Fixed(20),
        Length::Fixed(150),
        Length::Fixed(300),
        Length::Fixed(u32::MAX),
    ];
    let contents = [Size::new(0, 0), Size::new(25, 299), Size::new(5000, 5000)];
    for width in intents {
        for height in intents {
            for content in contents {
                let size = limits.resolve(width, height, content);
                assert!(20 <= size.width && size.width <= 200);
                assert!(30 <= size.height && size.height <= 300);
            }
        }
    }
}

#[test]
fn a_fixed_length_is_clamped_into_the_limits() {
    let limits = Limits::new(Size::new(20, 30), Size::new(200, 300));
    let content = Size::new(77, 77);
    assert_eq!(
        limits.resolve(Length::Fixed(5), Length::Fixed(500), content),
        Size::new(20, 300)
    );
    assert_eq!(
        limits.resolve(Length::Fixed(120), Length::Fixed(30), content),
        Size::new(120, 30)
    );
}

#[test]
fn a_filling_widget_takes_the_greatest_size() {
    let limits = Limits::new(Size::new(20, 30), Size::new(200, 300));
    assert_eq!(
        limits.resolve(Length::Fill, Length::FillPortion(3), Size::zero()),
        Size::new(200, 300)
    );
}

#[test]
fn a_shrinking_widget_takes_what_its_content_needs() {
    let limits = Limits::new(Size::new(20, 30), Size::new(200, 300));
    assert_eq!(
        limits.resolve(Length::Shrink, Length::Shrink, Size::new(64, 48)),
        Size::new(64, 48)
    );
    assert_eq!(
        limits.resolve(Length::Shrink, Length::Shrink, Size::zero()),
        Size::new(20, 30)
    );
    assert_eq!(
        limits.resolve(Length::Shrink, Length::Shrink, Size::new(1000, 1000)),
        Size::new(200, 300)
    );
}

#[test]
fn narrowing_one_axis_leaves_the_other() {
    let limits = Limits::new(Size::new(20, 30), Size::new(200, 300));
    assert_eq!(limits.min(), Size::new(20, 30));
    assert_eq!(limits.max(), Size::new(200, 300));

    let narrowed = limits.width(Length::Fixed(50));
    assert_eq!(narrowed.min(), Size::new(50, 30));
    assert_eq!(narrowed.max(), Size::new(50, 300));

    let narrowed = limits.width(Length::Fill);
    assert_eq!(narrowed.min(), Size::new(200, 30));
    assert_eq!(narrowed.max(), Size::new(200, 300));

    let narrowed = limits.height(Length::Fixed(1));
    assert_eq!(narrowed.min(), Size::new(20, 30));
    assert_eq!(narrowed.max(), Size::new(200, 30));

    let narrowed = limits.height(Length::FillPortion(2));
    assert_eq!(narrowed.min(), Size::new(20, 300));
    assert_eq!(narrowed.max(), Size::new(200, 300));

    assert_eq!(limits.width(Length::Shrink).height(Length::Shrink), limits);
}

#[test]
fn limits_of_a_single_size_leave_no_choice() {
    let limits = Limits::new(Size::new(8, 8), Size::new(8, 8));
    for intent in [Length::Fill, Length::Shrink, Length::Fixed(3), Length::Fixed(30)] {
        assert_eq!(limits.resolve(intent, intent, Size::new(100, 0)), Size::new(8, 8));
    }
}

#[test]
fn fill_factor_is_the_weight_of_a_portion() {
    assert_eq!(Length::Fill.fill_factor(), 1);
    assert_eq!(Length::FillPortion(5).fill_factor(), 5);
    assert_eq!(Length::Shrink.fill_factor(), 0);
    assert_eq!(Length::Fixed(9).fill_factor(), 0);
}

#[test]
fn a_leaf_node_sits_at_the_corner_and_has_no_children() {
    let node = Node::new(Size::new(30, 4));
    assert_eq!(node.bounds(), Rectangle { x: 0, y: 0, width: 30, height: 4 });
    assert_eq!(node.size(), Size::new(30, 4));
    assert_eq!(node.children().len(), 0);
}

#[test]
fn a_node_keeps_its_children_in_order() {
    let first = Node::new(Size::new(30, 4)).move_to(0, 0);
    let second = Node::new(Size::new(10, 6)).move_to(20, 4);
    let parent = Node::with_children(Size::new(30, 10), vec![first, second]);
    assert_eq!(parent.size(), Size::new(30, 10));
    assert_eq!(parent.children().len(), 2);
    assert_eq!(parent.children()[0].bounds(), Rectangle { x: 0, y: 0, width: 30, height: 4 });
    assert_eq!(parent.children()[1].bounds(), Rectangle { x: 20, y: 4, width: 10, height: 6 });
    let moved = parent.move_to(-5, 9);
    assert_eq!(moved.bounds(), Rectangle { x: -5, y: 9, width: 30, height: 10 });
    assert_eq!(moved.children().len(), 2);
}

#[test]
fn rectangles_are_made_of_a_corner_and_an_extent() {
    let rectangle = Rectangle::new(Point::new(-3, 8), Size::new(10, 20));
    assert_eq!(rectangle, Rectangle { x: -3, y: 8, width: 10, height: 20 });
    assert_eq!(rectangle.position(), Point { x: -3, y: 8 });
    assert_eq!(rectangle.size(), Size { width: 10, height: 20 });
    assert_eq!(Rectangle::with_size(Size::new(1, 2)), Rectangle { x: 0, y: 0, width: 1, height: 2 });
    assert_eq!(Point::origin(), Point { x: 0, y: 0 });
    assert_eq!(Size::zero(), Size { width: 0, height: 0 });
}
