use gesture_input::events::{
    EventPropagation, MouseButton, MouseButtonsState, MouseEvent, RawUserEvent, TouchEvent,
    UserEvent,
};
use gesture_input::geom::Point;
use gesture_input::processor::{EventProcessor, UserEventHandler};

struct NoopHandler;

impl UserEventHandler for NoopHandler {
    type Context = ();

    fn handle(&mut self, _event: &UserEvent, _ctx: &mut ()) -> EventPropagation {
        EventPropagation::Propagate
    }
}

fn new_processor() -> EventProcessor<NoopHandler> {
    Default::default()
}

fn pt(x: i64, y: i64) -> Point {
    Point { x, y }
}

fn snap(pos: Point, buttons: MouseButtonsState) -> MouseEvent {
    MouseEvent {
        screen_pointer_position: pos,
        buttons,
    }
}

fn left_pressed() -> MouseButtonsState {
    MouseButtonsState {
        left: true,
        middle: false,
        right: false,
        other: false,
    }
}

fn no_buttons() -> MouseButtonsState {
    MouseButtonsState {
        left: false,
        middle: false,
        right: false,
        other: false,
    }
}

#[test]
fn click_within_window() {
    let mut p = new_processor();
    p.process(RawUserEvent::ButtonPressed(MouseButton::Left), 1000);
    let events = p
        .process(RawUserEvent::ButtonReleased(MouseButton::Left), 1050)
        .unwrap();
    assert_eq!(
        events,
        vec![
            UserEvent::ButtonReleased(MouseButton::Left, snap(pt(0, 0), no_buttons())),
            UserEvent::Click(MouseButton::Left, snap(pt(0, 0), no_buttons())),
        ]
    );
}

#[test]
fn no_click_at_timeout() {
    let mut p = new_processor();
    p.process(RawUserEvent::ButtonPressed(MouseButton::Left), 1000);
    let events = p
        .process(RawUserEvent::ButtonReleased(MouseButton::Left), 1200)
        .unwrap();
    assert_eq!(
        events,
        vec![UserEvent::ButtonReleased(
            MouseButton::Left,
            snap(pt(0, 0), no_buttons())
        )]
    );
}

#[test]
fn double_click_within_window() {
    // Scenario: a click, then 300 ms later a second quick press/release
    // yields Click and DoubleClick on the second release.
    let mut p = new_processor();
    p.process(RawUserEvent::ButtonPressed(MouseButton::Left), 990);
    p.process(RawUserEvent::ButtonReleased(MouseButton::Left), 1000);
    p.process(RawUserEvent::ButtonPressed(MouseButton::Left), 1290);
    let events = p
        .process(RawUserEvent::ButtonReleased(MouseButton::Left), 1300)
        .unwrap();
    assert_eq!(
        events,
        vec![
            UserEvent::ButtonReleased(MouseButton::Left, snap(pt(0, 0), no_buttons())),
            UserEvent::Click(MouseButton::Left, snap(pt(0, 0), no_buttons())),
            UserEvent::DoubleClick(MouseButton::Left, snap(pt(0, 0), no_buttons())),
        ]
    );
}

#[test]
fn no_double_click_at_timeout() {
    let mut p = new_processor();
    p.process(RawUserEvent::ButtonPressed(MouseButton::Left), 990);
    p.process(RawUserEvent::ButtonReleased(MouseButton::Left), 1000);
    p.process(RawUserEvent::ButtonPressed(MouseButton::Left), 1490);
    let events = p
        .process(RawUserEvent::ButtonReleased(MouseButton::Left), 1500)
        .unwrap();
    assert_eq!(
        events,
        vec![
            UserEvent::ButtonReleased(MouseButton::Left, snap(pt(0, 0), no_buttons())),
            UserEvent::Click(MouseButton::Left, snap(pt(0, 0), no_buttons())),
        ]
    );
}

#[test]
fn release_before_press_time_is_no_click() {
    // A release whose timestamp lies before the recorded press time is
    // outside the click window rather than an error.
    let mut p = new_processor();
    p.process(RawUserEvent::ButtonPressed(MouseButton::Left), 1000);
    let events = p
        .process(RawUserEvent::ButtonReleased(MouseButton::Left), 900)
        .unwrap();
    assert_eq!(
        events,
        vec![UserEvent::ButtonReleased(
            MouseButton::Left,
            snap(pt(0, 0), no_buttons())
        )]
    );
}

#[test]
fn drag_starts_past_threshold() {
    // Scenario: press Left at the origin, move to (10, 0); taxicab
    // distance 10 > 3, so the move produces exactly
    // [PointerMoved, DragStarted at the press origin, Drag by (10, 0)].
    let mut p = new_processor();
    p.process(RawUserEvent::ButtonPressed(MouseButton::Left), 0);
    let events = p
        .process(RawUserEvent::PointerMoved(pt(10, 0)), 10)
        .unwrap();
    let buttons = left_pressed();
    assert_eq!(
        events,
        vec![
            UserEvent::PointerMoved(snap(pt(10, 0), buttons)),
            UserEvent::DragStarted(MouseButton::Left, snap(pt(0, 0), buttons)),
            UserEvent::Drag(
                MouseButton::Left,
                gesture_input::geom::Delta { dx: 10, dy: 0 },
                snap(pt(10, 0), buttons)
            ),
        ]
    );
}

#[test]
fn no_drag_at_threshold() {
    // Taxicab distance exactly 3 does not exceed the threshold.
    let mut p = new_processor();
    p.process(RawUserEvent::ButtonPressed(MouseButton::Left), 0);
    let events = p.process(RawUserEvent::PointerMoved(pt(2, 1)), 10).unwrap();
    assert_eq!(
        events,
        vec![UserEvent::PointerMoved(snap(pt(2, 1), left_pressed()))]
    );
}

#[test]
fn no_drag_without_button() {
    let mut p = new_processor();
    let events = p
        .process(RawUserEvent::PointerMoved(pt(50, 50)), 10)
        .unwrap();
    assert_eq!(
        events,
        vec![UserEvent::PointerMoved(snap(pt(50, 50), no_buttons()))]
    );
}

#[test]
fn scroll_passes_through() {
    let mut p = new_processor();
    let events = p.process(RawUserEvent::Scroll(-3), 5).unwrap();
    assert_eq!(
        events,
        vec![UserEvent::Scroll(-3, snap(pt(0, 0), no_buttons()))]
    );
}

#[test]
fn unknown_touch_move_ignored() {
    // A touch move for an id that was never started produces no output and
    // mutates nothing.
    let mut p = new_processor();
    p.process(
        RawUserEvent::TouchStart(TouchEvent {
            touch_id: 1,
            position: pt(0, 0),
        }),
        0,
    );
    let before_touches = p.touches.clone();
    let r = p.process(
        RawUserEvent::TouchMove(TouchEvent {
            touch_id: 7,
            position: pt(40, 40),
        }),
        10,
    );
    assert!(r.is_none());
    assert_eq!(p.touches, before_touches);
    assert_eq!(p.drag_target, None);
}

#[test]
fn single_touch_drag() {
    let mut p = new_processor();
    p.process(
        RawUserEvent::TouchStart(TouchEvent {
            touch_id: 1,
            position: pt(0, 0),
        }),
        0,
    );
    let events = p
        .process(
            RawUserEvent::TouchMove(TouchEvent {
                touch_id: 1,
                position: pt(10, 0),
            }),
            10,
        )
        .unwrap();
    assert_eq!(
        events,
        vec![
            UserEvent::DragStarted(MouseButton::Other, snap(pt(0, 0), no_buttons())),
            UserEvent::Drag(
                MouseButton::Other,
                gesture_input::geom::Delta { dx: 10, dy: 0 },
                snap(pt(10, 0), no_buttons())
            ),
        ]
    );
    // Nothing consumed the drag start, so no drag is pinned and a touch
    // end emits no DragEnded.
    let end_events = p
        .process(
            RawUserEvent::TouchEnd(TouchEvent {
                touch_id: 1,
                position: pt(10, 0),
            }),
            20,
        )
        .unwrap();
    assert!(end_events.is_empty());
    assert_eq!(p.touches.len(), 0);
}

#[test]
fn duplicate_touch_start_replaces_contact() {
    let mut p = new_processor();
    p.process(
        RawUserEvent::TouchStart(TouchEvent {
            touch_id: 1,
            position: pt(0, 0),
        }),
        0,
    );
    p.process(
        RawUserEvent::TouchStart(TouchEvent {
            touch_id: 1,
            position: pt(5, 5),
        }),
        10,
    );
    assert_eq!(p.touches.len(), 1);
    assert_eq!(p.touches[0].id, 1);
    assert_eq!(p.touches[0].start_position, pt(5, 5));
    assert_eq!(p.touches[0].prev_position, pt(5, 5));
}

#[test]
fn touch_end_removes_contact() {
    let mut p = new_processor();
    p.process(
        RawUserEvent::TouchStart(TouchEvent {
            touch_id: 1,
            position: pt(0, 0),
        }),
        0,
    );
    p.process(
        RawUserEvent::TouchStart(TouchEvent {
            touch_id: 2,
            position: pt(9, 9),
        }),
        1,
    );
    let events = p
        .process(
            RawUserEvent::TouchEnd(TouchEvent {
                touch_id: 1,
                position: pt(0, 0),
            }),
            2,
        )
        .unwrap();
    assert!(events.is_empty());
    assert_eq!(p.touches.len(), 1);
    assert_eq!(p.touches[0].id, 2);
}
