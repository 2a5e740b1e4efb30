use rule_widget::geometry::Point;
use rule_widget::mouse::{Button, Click, Event, Interaction, ScrollDelta};

#[test]
fn buttons_are_told_apart() {
    let buttons = [Button::Left, Button::Right, Button::Middle, Button::Other(0), Button::Other(9)];
    for (i, first) in buttons.iter().enumerate() {
        for (j, second) in buttons.iter().enumerate() {
            assert_eq!(first == second, i == j);
        }
    }
}

#[test]
fn events_keep_what_they_carry() {
    let events = [
        Event::CursorEntered,
        Event::CursorLeft,
        Event::CursorMoved { x: 3, y: -4 },
        Event::CursorMoved { x: 3, y: 4 },
        Event::ButtonPressed(Button::Left),
        Event::ButtonPressed(Button::Other(12)),
        Event::ButtonReleased(Button::Left),
        Event::ButtonReleased(Button::Other(12)),
        Event::WheelScrolled(ScrollDelta::Lines { x: 0, y: 1 }),
        Event::WheelScrolled(ScrollDelta::Pixels { x: 0, y: 1 }),
    ];
    for (i, first) in events.iter().enumerate() {
        let copy = *first;
        assert_eq!(copy, *first);
        for (j, second) in events.iter().enumerate() {
            assert_eq!(first == second, i == j);
        }
    }
    match events[5] {
        Event::ButtonPressed(Button::Other(code)) => assert_eq!(code, 12),
        _ => panic!("a press of another button"),
    }
    match events[2] {
        Event::CursorMoved { x, y } => assert_eq!((x, y), (3, -4)),
        _ => panic!("a move"),
    }
}

#[test]
fn scrolling_keeps_its_unit() {
    let lines = ScrollDelta::Lines { x: 2, y: -3 };
    let pixels = ScrollDelta::Pixels { x: 2, y: -3 };
    assert_ne!(lines, pixels);
    match lines {
        ScrollDelta::Lines { x, y } => assert_eq!((x, y), (2, -3)),
        ScrollDelta::Pixels { .. } => panic!("lines"),
    }
}

#[test]
fn a_click_has_a_button_a_place_and_a_count() {
    let click = Click { button: Button::Right, position: Point::new(4, 5), count: 2 };
    assert_eq!(click.button, Button::Right);
    assert_eq!(click.position, Point { x: 4, y: 5 });
    assert_eq!(click.count, 2);
}

#[test]
fn an_idle_pointer_is_the_default() {
    assert_eq!(Interaction::default(), Interaction::Idle);
    assert_ne!(Interaction::Text, Interaction::Working);
}
