//! The two-touch gesture recognizer: classifies ongoing motion of a pair of
//! touch contacts into pan, zoom, tilt or rotate, and emits one semantic
//! event per update.

use vstd::prelude::*;

use crate::events::{TouchEvent, UserEvent};
use crate::geom::{
    delta_of, dist_sq, midpoint_doubled_spec, point_in_bounds, point_in_bounds2, rotation_exceeded,
    tilt_exceeded, zoom_exceeded, Delta, Point, COORD_LIMIT,
};
use crate::geom::{
    distance_squared, midpoint_doubled, point_delta, point_delta2, rotation_threshold_crossed,
    tilt_threshold_crossed, zoom_threshold_crossed,
};

verus! {

/// The mode a two-touch gesture is in. A gesture begins in `Pan` and, once
/// one of the thresholds is crossed, locks into one of the other modes
/// until a fresh two-touch start.
#[derive(Clone, Copy, Debug, PartialEq, Eq, Structural)]
pub enum TouchMode {
    Pan,
    Zoom,
    Tilt,
    Rotate,
}

/// An active touch contact: its identifier, where it first appeared, and
/// where it most recently was.
#[derive(Clone, Copy, Debug, PartialEq, Eq, Structural)]
pub struct TouchInfo {
    pub id: u64,
    pub start_position: Point,
    pub prev_position: Point,
}

/// A touch contact whose recorded positions the library accepts.
pub open spec fn touch_in_bounds(t: TouchInfo) -> bool {
    point_in_bounds(t.start_position) && point_in_bounds(t.prev_position)
}

/// The gesture recognizer: the current mode and the baseline captured when
/// the second touch contact appeared.
#[derive(Clone, Copy, Debug, PartialEq, Eq, Structural)]
pub struct GestureController {
    pub touch_mode: TouchMode,
    /// Doubled midpoint of the two contacts' start positions.
    pub midpoint_start_doubled: Point,
    /// Direction vector between the two contacts' start positions; stands
    /// for the baseline inter-touch angle.
    pub dir_start: Delta,
    /// Squared distance between the two contacts' start positions.
    pub dist_sq_start: u64,
}

impl GestureController {
    pub open spec fn wf(self) -> bool {
        &&& point_in_bounds2(self.midpoint_start_doubled)
        &&& -2 * COORD_LIMIT <= self.dir_start.dx <= 2 * COORD_LIMIT
        &&& -2 * COORD_LIMIT <= self.dir_start.dy <= 2 * COORD_LIMIT
        &&& self.dist_sq_start <= 8_000_000_000_000
    }

    /// The recognizer at rest, before any two-touch gesture.
    pub open spec fn initial_spec() -> GestureController {
        GestureController {
            touch_mode: TouchMode::Pan,
            midpoint_start_doubled: Point { x: 0, y: 0 },
            dir_start: Delta { dx: 0, dy: 0 },
            dist_sq_start: 0,
        }
    }

    /// The recognizer as `start` leaves it for contacts that first appeared
    /// at `a` and `b`.
    pub open spec fn start_spec(a: Point, b: Point) -> GestureController {
        GestureController {
            touch_mode: TouchMode::Pan,
            midpoint_start_doubled: midpoint_doubled_spec(a, b),
            dir_start: delta_of(a, b),
            dist_sq_start: dist_sq(a, b) as u64,
        }
    }

    /// The positions of the pair after the reported move: both contacts'
    /// previous positions, with the moving contact's replaced by the newly
    /// reported one.
    pub open spec fn new_positions(t0: TouchInfo, t1: TouchInfo, e: TouchEvent) -> (Point, Point) {
        if e.touch_id == t0.id {
            (e.position, t1.prev_position)
        } else {
            (t0.prev_position, e.position)
        }
    }

    /// The previous position of the contact that did not move.
    pub open spec fn stationary_position(t0: TouchInfo, t1: TouchInfo, e: TouchEvent) -> Point {
        if e.touch_id == t0.id {
            t1.prev_position
        } else {
            t0.prev_position
        }
    }

    /// The mode after an update: sticky once out of `Pan`; from `Pan`, the
    /// zoom, tilt and rotate thresholds are tried in that order against the
    /// baseline, and the first one crossed wins.
    pub open spec fn mode_after(self, t0: TouchInfo, t1: TouchInfo, e: TouchEvent) -> TouchMode {
        if self.touch_mode != TouchMode::Pan {
            self.touch_mode
        } else {
            let (n0, n1) = Self::new_positions(t0, t1, e);
            if zoom_exceeded(dist_sq(n0, n1), self.dist_sq_start as int) {
                TouchMode::Zoom
            } else if tilt_exceeded(midpoint_doubled_spec(n0, n1), self.midpoint_start_doubled) {
                TouchMode::Tilt
            } else if rotation_exceeded(delta_of(n0, n1), self.dir_start) {
                TouchMode::Rotate
            } else {
                TouchMode::Pan
            }
        }
    }

    /// The one event an update emits, per the mode the update settles on.
    pub open spec fn event_after(self, t0: TouchInfo, t1: TouchInfo, e: TouchEvent) -> UserEvent {
        let (n0, n1) = Self::new_positions(t0, t1, e);
        let o0 = t0.prev_position;
        let o1 = t1.prev_position;
        let m2_new = midpoint_doubled_spec(n0, n1);
        let m2_old = midpoint_doubled_spec(o0, o1);
        match self.mode_after(t0, t1, e) {
            TouchMode::Pan => UserEvent::Pan {
                delta_doubled: delta_of(m2_new, m2_old),
                midpoint_doubled: m2_new,
            },
            TouchMode::Zoom => UserEvent::Zoom {
                dist_sq_prev: dist_sq(o0, o1) as u64,
                dist_sq_new: dist_sq(n0, n1) as u64,
                anchor: Self::stationary_position(t0, t1, e),
            },
            TouchMode::Rotate => UserEvent::Rotate {
                tilt_doubled: 0,
                dir_prev: delta_of(o0, o1),
                dir_new: delta_of(n0, n1),
            },
            TouchMode::Tilt => UserEvent::Rotate {
                tilt_doubled: delta_of(m2_new, m2_old).dy,
                dir_prev: delta_of(n0, n1),
                dir_new: delta_of(n0, n1),
            },
        }
    }

    /// Begin a gesture the moment a second contact appears: reset the mode
    /// to `Pan` and capture the baseline distance, midpoint and direction
    /// from the two contacts' start positions.
    pub fn start(&mut self, a: &TouchInfo, b: &TouchInfo)
        requires
            touch_in_bounds(*a),
            touch_in_bounds(*b),
        ensures
            *final(self) == Self::start_spec(a.start_position, b.start_position),
            final(self).wf(),
    {
        let p1 = a.start_position;
        let p2 = b.start_position;
        self.dist_sq_start = distance_squared(p1, p2);
        self.midpoint_start_doubled = midpoint_doubled(p1, p2);
        self.dir_start = point_delta(p1, p2);
        self.touch_mode = TouchMode::Pan;
    }

    /// Feed one touch-move of a two-contact pair through the recognizer:
    /// settle the mode (locked once out of `Pan`) and emit the one event
    /// for it. A move whose id matches neither contact is ignored.
    pub fn update_gesture(&mut self, t0: &TouchInfo, t1: &TouchInfo, event: &TouchEvent) -> (r: Vec<
        UserEvent,
    >)
        requires
            old(self).wf(),
            touch_in_bounds(*t0),
            touch_in_bounds(*t1),
            point_in_bounds(event.position),
        ensures
            final(self).wf(),
            event.touch_id != t0.id && event.touch_id != t1.id ==> *final(self) == *old(self) && r@
                =~= Seq::<UserEvent>::empty(),
            event.touch_id == t0.id || event.touch_id == t1.id ==> {
                &&& *final(self) == GestureController {
                    touch_mode: old(self).mode_after(*t0, *t1, *event),
                    ..*old(self)
                }
                &&& r@ =~= seq![old(self).event_after(*t0, *t1, *event)]
            },
            // mode stickiness: once out of Pan, the mode never changes again
            old(self).touch_mode != TouchMode::Pan ==> final(self).touch_mode == old(
                self,
            ).touch_mode,
    {
        if event.touch_id != t0.id && event.touch_id != t1.id {
            return Vec::new();
        }
        let (n0, n1) = if event.touch_id == t0.id {
            (event.position, t1.prev_position)
        } else {
            (t0.prev_position, event.position)
        };
        let other_touch_position = if event.touch_id == t0.id {
            t1.prev_position
        } else {
            t0.prev_position
        };
        let o0 = t0.prev_position;
        let o1 = t1.prev_position;

        let q_new = distance_squared(n0, n1);
        let m2_new = midpoint_doubled(n0, n1);
        let d_new = point_delta(n0, n1);

        if self.touch_mode == TouchMode::Pan {
            if zoom_threshold_crossed(q_new, self.dist_sq_start) {
                self.touch_mode = TouchMode::Zoom;
            } else if tilt_threshold_crossed(m2_new, self.midpoint_start_doubled) {
                self.touch_mode = TouchMode::Tilt;
            } else if rotation_threshold_crossed(d_new, self.dir_start) {
                self.touch_mode = TouchMode::Rotate;
            }
        }
        let mut events: Vec<UserEvent> = Vec::new();
        match self.touch_mode {
            TouchMode::Pan => {
                let m2_old = midpoint_doubled(o0, o1);
                events.push(
                    UserEvent::Pan {
                        delta_doubled: point_delta2(m2_new, m2_old),
                        midpoint_doubled: m2_new,
                    },
                );
            },
            TouchMode::Zoom => {
                let q_prev = distance_squared(o0, o1);
                events.push(
                    UserEvent::Zoom {
                        dist_sq_prev: q_prev,
                        dist_sq_new: q_new,
                        anchor: other_touch_position,
                    },
                );
            },
            TouchMode::Rotate => {
                let d_old = point_delta(o0, o1);
                events.push(UserEvent::Rotate { tilt_doubled: 0, dir_prev: d_old, dir_new: d_new });
            },
            TouchMode::Tilt => {
                let m2_old = midpoint_doubled(o0, o1);
                events.push(
                    UserEvent::Rotate {
                        tilt_doubled: point_delta2(m2_new, m2_old).dy,
                        dir_prev: d_new,
                        dir_new: d_new,
                    },
                );
            },
        }
        events
    }
}

impl Default for GestureController {
    fn default() -> (r: Self)
        ensures
            r == GestureController::initial_spec(),
            r.wf(),
    {
        GestureController {
            touch_mode: TouchMode::Pan,
            midpoint_start_doubled: Point { x: 0, y: 0 },
            dir_start: Delta { dx: 0, dy: 0 },
            dist_sq_start: 0,
        }
    }
}

/// Law (gesture mode stickiness): whatever move a pair of contacts reports,
/// a recognizer that has left `Pan` keeps its mode; only a fresh `start`
/// returns it to `Pan`.
pub proof fn lemma_mode_stickiness(
    gc: GestureController,
    t0: TouchInfo,
    t1: TouchInfo,
    e: TouchEvent,
)
    requires
        gc.touch_mode != TouchMode::Pan,
    ensures
        gc.mode_after(t0, t1, e) == gc.touch_mode,
{
}

} // verus!
