use gesture_input::events::{EventPropagation, RawUserEvent, TouchEvent, UserEvent};
use gesture_input::geom::{Delta, Point};
use gesture_input::gesture::TouchMode;
use gesture_input::processor::{EventProcessor, UserEventHandler};

struct NoopHandler;

impl UserEventHandler for NoopHandler {
    type Context = ();

    fn handle(&mut self, _event: &UserEvent, _ctx: &mut ()) -> EventPropagation {
        EventPropagation::Propagate
    }
}

fn new_processor() -> EventProcessor<NoopHandler> {
    Default::default()
}

fn pt(x: i64, y: i64) -> Point {
    Point { x, y }
}

fn touch_start(p: &mut EventProcessor<NoopHandler>, id: u64, pos: Point, t: u64) {
    p.process(
        RawUserEvent::TouchStart(TouchEvent {
            touch_id: id,
            position: pos,
        }),
        t,
    );
}

fn touch_move(
    p: &mut EventProcessor<NoopHandler>,
    id: u64,
    pos: Point,
    t: u64,
) -> Vec<UserEvent> {
    p.process(
        RawUserEvent::TouchMove(TouchEvent {
            touch_id: id,
            position: pos,
        }),
        t,
    )
    .unwrap()
}

#[test]
fn baseline_captured_on_second_touch() {
    // Scenario: contacts at (0, 0) and (100, 0) give baseline distance 100
    // (squared 10000), midpoint (50, 0) (doubled (100, 0)) and a direction
    // along the x axis.
    let mut p = new_processor();
    touch_start(&mut p, 1, pt(0, 0), 0);
    touch_start(&mut p, 2, pt(100, 0), 1);
    assert_eq!(p.gesture_controller.dist_sq_start, 10_000);
    assert_eq!(p.gesture_controller.midpoint_start_doubled, pt(100, 0));
    assert_eq!(p.gesture_controller.dir_start, Delta { dx: -100, dy: 0 });
    assert_eq!(p.gesture_controller.touch_mode, TouchMode::Pan);
}

#[test]
fn zoom_mode_past_threshold() {
    // Scenario: baseline distance 100; moving one contact to (0, 130)
    // makes the distance sqrt(26900) ~= 164.0, a change of more than 60,
    // so the gesture becomes a zoom anchored at the stationary contact.
    let mut p = new_processor();
    touch_start(&mut p, 1, pt(0, 0), 0);
    touch_start(&mut p, 2, pt(100, 0), 1);
    let events = touch_move(&mut p, 1, pt(0, 130), 2);
    assert_eq!(
        events,
        vec![UserEvent::Zoom {
            dist_sq_prev: 10_000,
            dist_sq_new: 26_900,
            anchor: pt(100, 0),
        }]
    );
    assert_eq!(p.gesture_controller.touch_mode, TouchMode::Zoom);
    // The zoom factor consumers derive from the payload.
    let factor = ((10_000.0f64) / (26_900.0f64)).sqrt();
    assert!((factor - 0.6097).abs() < 0.001);
    assert!((26_900.0f64).sqrt() - 100.0 > 60.0);
}

#[test]
fn no_zoom_at_exact_threshold() {
    // A distance change of exactly 60 does not cross the threshold: the
    // gesture stays a pan.
    let mut p = new_processor();
    touch_start(&mut p, 1, pt(0, 0), 0);
    touch_start(&mut p, 2, pt(100, 0), 1);
    let events = touch_move(&mut p, 1, pt(-60, 0), 2);
    assert_eq!(
        events,
        vec![UserEvent::Pan {
            delta_doubled: Delta { dx: -60, dy: 0 },
            midpoint_doubled: pt(40, 0),
        }]
    );
    assert_eq!(p.gesture_controller.touch_mode, TouchMode::Pan);
}

#[test]
fn pan_mode_emits_midpoint_delta() {
    let mut p = new_processor();
    touch_start(&mut p, 1, pt(0, 0), 0);
    touch_start(&mut p, 2, pt(100, 0), 1);
    let events = touch_move(&mut p, 1, pt(10, 0), 2);
    // Midpoint moves from (50, 0) to (55, 0): doubled delta (10, 0),
    // doubled midpoint (110, 0).
    assert_eq!(
        events,
        vec![UserEvent::Pan {
            delta_doubled: Delta { dx: 10, dy: 0 },
            midpoint_doubled: pt(110, 0),
        }]
    );
    assert_eq!(p.gesture_controller.touch_mode, TouchMode::Pan);
}

#[test]
fn tilt_mode_past_midpoint_threshold() {
    // With a wide pair, moving one contact straight up by 130 shifts the
    // midpoint by 65 > 60 while the distance grows by only ~4.2 and the
    // angle by ~0.065 rad: the gesture becomes a tilt.
    let mut p = new_processor();
    touch_start(&mut p, 1, pt(0, 0), 0);
    touch_start(&mut p, 2, pt(2000, 0), 1);
    let events = touch_move(&mut p, 1, pt(0, 130), 2);
    assert_eq!(
        events,
        vec![UserEvent::Rotate {
            tilt_doubled: 130,
            dir_prev: Delta { dx: -2000, dy: 130 },
            dir_new: Delta { dx: -2000, dy: 130 },
        }]
    );
    assert_eq!(p.gesture_controller.touch_mode, TouchMode::Tilt);
}

#[test]
fn rotate_mode_past_angle_threshold() {
    // Moving one contact of the (0,0)/(100,0) pair down by 20 turns the
    // inter-touch direction by ~0.197 rad > 0.1 while distance and
    // midpoint stay within their thresholds: the gesture becomes a
    // rotation, carrying both direction vectors.
    let mut p = new_processor();
    touch_start(&mut p, 1, pt(0, 0), 0);
    touch_start(&mut p, 2, pt(100, 0), 1);
    let events = touch_move(&mut p, 1, pt(0, -20), 2);
    assert_eq!(
        events,
        vec![UserEvent::Rotate {
            tilt_doubled: 0,
            dir_prev: Delta { dx: -100, dy: 0 },
            dir_new: Delta { dx: -100, dy: -20 },
        }]
    );
    assert_eq!(p.gesture_controller.touch_mode, TouchMode::Rotate);
    // The rotation consumers derive from the payload is the raw
    // difference of direction angles, negated — including the jump past
    // the negative x axis, as here.
    let a_new = (-20.0f64).atan2(-100.0);
    let a_old = (0.0f64).atan2(-100.0);
    let rotation = -(a_new - a_old);
    assert!((rotation - 6.0858).abs() < 0.001);
}

#[test]
fn mode_sticks_once_out_of_pan() {
    // Once the recognizer is in Zoom, a move that would otherwise cross
    // the tilt threshold still yields a Zoom event and the mode stays.
    let mut p = new_processor();
    touch_start(&mut p, 1, pt(0, 0), 0);
    touch_start(&mut p, 2, pt(100, 0), 1);
    touch_move(&mut p, 1, pt(0, 130), 2);
    assert_eq!(p.gesture_controller.touch_mode, TouchMode::Zoom);
    let events = touch_move(&mut p, 2, pt(0, 30), 3);
    assert_eq!(
        events,
        vec![UserEvent::Zoom {
            dist_sq_prev: 26_900,
            dist_sq_new: 10_000,
            anchor: pt(0, 130),
        }]
    );
    assert_eq!(p.gesture_controller.touch_mode, TouchMode::Zoom);
}

#[test]
fn fresh_two_touch_start_resets_mode() {
    let mut p = new_processor();
    touch_start(&mut p, 1, pt(0, 0), 0);
    touch_start(&mut p, 2, pt(100, 0), 1);
    touch_move(&mut p, 1, pt(0, 130), 2);
    assert_eq!(p.gesture_controller.touch_mode, TouchMode::Zoom);
    // Lift the second contact and place it again: a fresh two-touch
    // baseline is captured and the mode returns to Pan.
    p.process(
        RawUserEvent::TouchEnd(TouchEvent {
            touch_id: 2,
            position: pt(100, 0),
        }),
        3,
    );
    touch_start(&mut p, 2, pt(200, 0), 4);
    assert_eq!(p.gesture_controller.touch_mode, TouchMode::Pan);
    assert_eq!(p.gesture_controller.dist_sq_start, 40_000);
}

#[test]
fn three_touches_produce_no_events() {
    let mut p = new_processor();
    touch_start(&mut p, 1, pt(0, 0), 0);
    touch_start(&mut p, 2, pt(100, 0), 1);
    touch_start(&mut p, 3, pt(50, 50), 2);
    let events = touch_move(&mut p, 3, pt(60, 60), 3);
    assert!(events.is_empty());
    assert_eq!(p.touches[2].prev_position, pt(60, 60));
}

#[test]
fn extreme_coordinates_stay_exact() {
    // Contacts at opposite corners of the accepted coordinate range: the
    // squared baseline distance reaches its largest value and the zoom
    // decision still comes out exactly.
    let mut p = new_processor();
    touch_start(&mut p, 1, pt(-1_000_000, -1_000_000), 0);
    touch_start(&mut p, 2, pt(1_000_000, 1_000_000), 1);
    assert_eq!(p.gesture_controller.dist_sq_start, 8_000_000_000_000);
    let events = touch_move(&mut p, 1, pt(1_000_000, -1_000_000), 2);
    assert_eq!(
        events,
        vec![UserEvent::Zoom {
            dist_sq_prev: 8_000_000_000_000,
            dist_sq_new: 4_000_000_000_000,
            anchor: pt(1_000_000, 1_000_000),
        }]
    );
    assert_eq!(p.gesture_controller.touch_mode, TouchMode::Zoom);
}
