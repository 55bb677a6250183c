//! The event normalizer and dispatcher: consumes raw input events, keeps
//! the pointer/touch/button state, produces the ordered list of semantic
//! events for each raw event, and offers each semantic event to an ordered
//! chain of handlers under the drag-pinning rules.

use vstd::prelude::*;

use crate::events::{
    EventPropagation, MouseButton, MouseButtonsState, MouseEvent, RawUserEvent, TouchEvent,
    UserEvent,
};
use crate::geom::{
    delta_of, point_in_bounds, taxicab, taxicab_distance, point_delta, Point,
    DRAG_THRESHOLD_TAXICAB,
};
use crate::gesture::{touch_in_bounds, GestureController, TouchInfo};

verus! {

/// A release within this many milliseconds of the matching press is a click.
pub const CLICK_TIMEOUT_MS: u64 = 200;

/// A click within this many milliseconds of the previous click is a
/// double-click.
pub const DOUBLE_CLICK_TIMEOUT_MS: u64 = 500;

/// A handler in the dispatch chain. The processor knows nothing about what
/// a handler does: it may mutate itself and the context freely, and answer
/// any outcome.
pub trait UserEventHandler {
    /// The external state the handler chain reads and mutates.
    type Context;

    /// Offered one semantic event; answers how dispatch should continue.
    fn handle(&mut self, event: &UserEvent, ctx: &mut Self::Context) -> EventPropagation;
}

/// The processor's abstract state: everything but the handler chain.
pub ghost struct ProcView {
    pub pointer_position: Point,
    pub pointer_pressed_position: Point,
    pub touches: Seq<TouchInfo>,
    pub gesture: GestureController,
    pub buttons: MouseButtonsState,
    pub last_pressed_time: u64,
    pub last_click_time: u64,
    pub drag_target: Option<usize>,
}

/// The pointer-state snapshot attached to an emitted event.
pub open spec fn mouse_snapshot(pos: Point, buttons: MouseButtonsState) -> MouseEvent {
    MouseEvent { screen_pointer_position: pos, buttons }
}

/// Whether `now` falls inside the window of `window` milliseconds that
/// opened at `reference`. A `now` before `reference` is outside the window.
pub open spec fn within_window(reference: u64, now: u64, window: u64) -> bool {
    reference <= now && now - reference < window
}

/// Whether some tracked contact carries `id`.
pub open spec fn has_touch(s: Seq<TouchInfo>, id: u64) -> bool {
    exists|j: int| 0 <= j < s.len() && s[j].id == id
}

/// `post` is `pre` with the first contact carrying `id` removed, or `pre`
/// itself when no contact carries it.
pub open spec fn removed_touch(pre: Seq<TouchInfo>, id: u64, post: Seq<TouchInfo>) -> bool {
    if has_touch(pre, id) {
        exists|j: int|
            {
                &&& 0 <= j < pre.len()
                &&& (#[trigger] pre[j]).id == id
                &&& (forall|k: int| 0 <= k < j ==> pre[k].id != id)
                &&& post == pre.remove(j)
            }
    } else {
        post == pre
    }
}

/// The fresh contact a touch-start records.
pub open spec fn fresh_touch(t: TouchEvent) -> TouchInfo {
    TouchInfo { id: t.touch_id, start_position: t.position, prev_position: t.position }
}

/// A press marks the button, records the press time and the press origin,
/// and emits `ButtonPressed`.
pub open spec fn step_button_pressed(
    pre: ProcView,
    b: MouseButton,
    now_ms: u64,
    post: ProcView,
    out: Option<Seq<UserEvent>>,
) -> bool {
    let buttons2 = pre.buttons.with_pressed(b);
    &&& post == ProcView {
        buttons: buttons2,
        last_pressed_time: now_ms,
        pointer_pressed_position: pre.pointer_position,
        ..pre
    }
    &&& out == Some(seq![UserEvent::ButtonPressed(b, mouse_snapshot(pre.pointer_position, buttons2))])
}

/// A release emits `ButtonReleased`; inside the click window it adds
/// `Click`, then `DoubleClick` when the click window of the previous click
/// is also open, and ends an active drag. Note the quirk, kept on purpose:
/// `DragEnded` is emitted (and the drag target cleared) only inside the
/// click-window branch, so a slow release leaves an active drag pinned —
/// only a touch-end with no contacts left, or a later quick release, ends
/// it.
pub open spec fn step_button_released(
    pre: ProcView,
    b: MouseButton,
    now_ms: u64,
    post: ProcView,
    out: Option<Seq<UserEvent>>,
) -> bool {
    let buttons2 = pre.buttons.with_released(b);
    let snap = mouse_snapshot(pre.pointer_position, buttons2);
    let clicked = within_window(pre.last_pressed_time, now_ms, CLICK_TIMEOUT_MS);
    let dbl = clicked && within_window(pre.last_click_time, now_ms, DOUBLE_CLICK_TIMEOUT_MS);
    let ended = clicked && pre.drag_target is Some;
    &&& post == ProcView {
        buttons: buttons2,
        last_click_time: if clicked {
            now_ms
        } else {
            pre.last_click_time
        },
        drag_target: if clicked {
            None
        } else {
            pre.drag_target
        },
        ..pre
    }
    &&& out == Some(
        seq![UserEvent::ButtonReleased(b, snap)] + (if clicked {
            seq![UserEvent::Click(b, snap)]
        } else {
            Seq::<UserEvent>::empty()
        }) + (if dbl {
            seq![UserEvent::DoubleClick(b, snap)]
        } else {
            Seq::<UserEvent>::empty()
        }) + (if ended {
            seq![UserEvent::DragEnded(b, snap)]
        } else {
            Seq::<UserEvent>::empty()
        }),
    )
}

/// A move updates the pointer position and emits `PointerMoved`; with
/// exactly one button pressed it also starts a drag once the taxicab
/// distance from the press origin exceeds the threshold (the drag start
/// carries the press origin), and emits `Drag` while one is active or
/// starting.
pub open spec fn step_pointer_moved(
    pre: ProcView,
    p: Point,
    post: ProcView,
    out: Option<Seq<UserEvent>>,
) -> bool {
    let snap = mouse_snapshot(p, pre.buttons);
    &&& post == ProcView { pointer_position: p, ..pre }
    &&& match pre.buttons.single_pressed_spec() {
        Some(b) => {
            let started = pre.drag_target is None && taxicab(p, pre.pointer_pressed_position)
                > DRAG_THRESHOLD_TAXICAB;
            let dragging = pre.drag_target is Some || started;
            out == Some(
                seq![UserEvent::PointerMoved(snap)] + (if started {
                    seq![
                        UserEvent::DragStarted(
                            b,
                            mouse_snapshot(pre.pointer_pressed_position, pre.buttons),
                        ),
                    ]
                } else {
                    Seq::<UserEvent>::empty()
                }) + (if dragging {
                    seq![UserEvent::Drag(b, delta_of(p, pre.pointer_position), snap)]
                } else {
                    Seq::<UserEvent>::empty()
                }),
            )
        },
        None => out == Some(seq![UserEvent::PointerMoved(snap)]),
    }
}

/// A scroll changes nothing and emits `Scroll` with the delta.
pub open spec fn step_scroll(
    pre: ProcView,
    delta: i64,
    post: ProcView,
    out: Option<Seq<UserEvent>>,
) -> bool {
    &&& post == pre
    &&& out == Some(
        seq![UserEvent::Scroll(delta, mouse_snapshot(pre.pointer_position, pre.buttons))],
    )
}

/// A touch start discards any stale contact with the same id, records the
/// fresh contact, and — when this makes exactly two contacts — captures
/// the gesture baseline. It emits nothing.
pub open spec fn step_touch_start(
    pre: ProcView,
    t: TouchEvent,
    post: ProcView,
    out: Option<Seq<UserEvent>>,
) -> bool {
    &&& out is None
    &&& exists|mid: Seq<TouchInfo>|
        {
            &&& #[trigger] removed_touch(pre.touches, t.touch_id, mid)
            &&& post == ProcView {
                touches: mid.push(fresh_touch(t)),
                gesture: if mid.len() == 1 {
                    GestureController::start_spec(mid[0].start_position, t.position)
                } else {
                    pre.gesture
                },
                ..pre
            }
        }
}

/// A touch move for an unknown id changes nothing and emits nothing. For
/// a tracked contact it applies the single-touch drag logic (button
/// `Other`) when the contact is alone, delegates to the gesture recognizer
/// when exactly two are active, and then records the new position as the
/// contact's previous position.
pub open spec fn step_touch_move(
    pre: ProcView,
    t: TouchEvent,
    post: ProcView,
    out: Option<Seq<UserEvent>>,
) -> bool {
    if !has_touch(pre.touches, t.touch_id) {
        post == pre && out is None
    } else {
        exists|j: int|
            {
                &&& 0 <= j < pre.touches.len()
                &&& (#[trigger] pre.touches[j]).id == t.touch_id
                &&& {
                    let touch = pre.touches[j];
                    let touches2 = pre.touches.update(
                        j,
                        TouchInfo { prev_position: t.position, ..touch },
                    );
                    if pre.touches.len() == 1 {
                        let started = pre.drag_target is None && taxicab(
                            t.position,
                            touch.start_position,
                        ) > DRAG_THRESHOLD_TAXICAB;
                        let dragging = pre.drag_target is Some || started;
                        &&& post == ProcView { touches: touches2, ..pre }
                        &&& out == Some(
                            (if started {
                                seq![
                                    UserEvent::DragStarted(
                                        MouseButton::Other,
                                        mouse_snapshot(touch.start_position, pre.buttons),
                                    ),
                                ]
                            } else {
                                Seq::<UserEvent>::empty()
                            }) + (if dragging {
                                seq![
                                    UserEvent::Drag(
                                        MouseButton::Other,
                                        delta_of(t.position, touch.prev_position),
                                        mouse_snapshot(t.position, pre.buttons),
                                    ),
                                ]
                            } else {
                                Seq::<UserEvent>::empty()
                            }),
                        )
                    } else if pre.touches.len() == 2 {
                        &&& post == ProcView {
                            touches: touches2,
                            gesture: GestureController {
                                touch_mode: pre.gesture.mode_after(
                                    pre.touches[0],
                                    pre.touches[1],
                                    t,
                                ),
                                ..pre.gesture
                            },
                            ..pre
                        }
                        &&& out == Some(
                            seq![pre.gesture.event_after(pre.touches[0], pre.touches[1], t)],
                        )
                    } else {
                        &&& post == ProcView { touches: touches2, ..pre }
                        &&& out == Some(Seq::<UserEvent>::empty())
                    }
                }
            }
    }
}

/// A touch end removes the contact; when a drag was active and no contact
/// remains, it clears the drag target and emits `DragEnded` at the ending
/// position with button `Other`.
pub open spec fn step_touch_end(
    pre: ProcView,
    t: TouchEvent,
    post: ProcView,
    out: Option<Seq<UserEvent>>,
) -> bool {
    exists|mid: Seq<TouchInfo>|
        {
            &&& #[trigger] removed_touch(pre.touches, t.touch_id, mid)
            &&& {
                let ended = pre.drag_target is Some && mid.len() == 0;
                &&& post == ProcView {
                    touches: mid,
                    drag_target: if ended {
                        None
                    } else {
                        pre.drag_target
                    },
                    ..pre
                }
                &&& out == Some(
                    if ended {
                        seq![
                            UserEvent::DragEnded(
                                MouseButton::Other,
                                mouse_snapshot(t.position, pre.buttons),
                            ),
                        ]
                    } else {
                        Seq::<UserEvent>::empty()
                    },
                )
            }
        }
}

/// The processor's transition relation: how one raw event at time `now_ms`
/// takes the state `pre` to `post` and what it emits. `out` is `None` for
/// raw events that only update internal state.
pub open spec fn step(
    pre: ProcView,
    event: RawUserEvent,
    now_ms: u64,
    post: ProcView,
    out: Option<Seq<UserEvent>>,
) -> bool {
    match event {
        RawUserEvent::ButtonPressed(b) => step_button_pressed(pre, b, now_ms, post, out),
        RawUserEvent::ButtonReleased(b) => step_button_released(pre, b, now_ms, post, out),
        RawUserEvent::PointerMoved(p) => step_pointer_moved(pre, p, post, out),
        RawUserEvent::Scroll(d) => step_scroll(pre, d, post, out),
        RawUserEvent::TouchStart(t) => step_touch_start(pre, t, post, out),
        RawUserEvent::TouchMove(t) => step_touch_move(pre, t, post, out),
        RawUserEvent::TouchEnd(t) => step_touch_end(pre, t, post, out),
    }
}

/// Positions carried by a raw event are within the coordinate limit.
pub open spec fn raw_event_in_bounds(e: RawUserEvent) -> bool {
    match e {
        RawUserEvent::ButtonPressed(_) => true,
        RawUserEvent::ButtonReleased(_) => true,
        RawUserEvent::PointerMoved(p) => point_in_bounds(p),
        RawUserEvent::Scroll(_) => true,
        RawUserEvent::TouchStart(t) => point_in_bounds(t.position),
        RawUserEvent::TouchMove(t) => point_in_bounds(t.position),
        RawUserEvent::TouchEnd(t) => point_in_bounds(t.position),
    }
}

/// The abstract state of the emitted list: the views of the events.
pub open spec fn events_view(r: Option<Vec<UserEvent>>) -> Option<Seq<UserEvent>> {
    match r {
        Some(v) => Some(v@),
        None => None,
    }
}

/// A well-formed abstract state: positions within bounds, touch ids
/// pairwise distinct, gesture baseline within bounds.
pub open spec fn view_wf(v: ProcView) -> bool {
    &&& point_in_bounds(v.pointer_position)
    &&& point_in_bounds(v.pointer_pressed_position)
    &&& (forall|i: int| 0 <= i < v.touches.len() ==> touch_in_bounds(#[trigger] v.touches[i]))
    &&& (forall|i: int, j: int|
        0 <= i < j < v.touches.len() ==> (#[trigger] v.touches[i]).id != (
        #[trigger] v.touches[j]).id)
    &&& v.gesture.wf()
}

/// The state a processor starts from: pointer at the origin, nothing
/// pressed, no contacts, both timestamps at the epoch, no drag.
pub open spec fn initial_view() -> ProcView {
    ProcView {
        pointer_position: Point { x: 0, y: 0 },
        pointer_pressed_position: Point { x: 0, y: 0 },
        touches: Seq::empty(),
        gesture: GestureController::initial_spec(),
        buttons: MouseButtonsState::none_spec(),
        last_pressed_time: 0,
        last_click_time: 0,
        drag_target: None,
    }
}

/// Whether dispatch may offer `event` to the handler at chain position
/// `index`: drag-continuation events (`Drag`, `DragEnded`) go only to the
/// pinned drag-target handler; every other event is offered to everyone.
pub open spec fn may_offer_spec(event: UserEvent, drag_target: Option<usize>, index: usize) -> bool {
    if event is Drag || event is DragEnded {
        drag_target == Some(index)
    } else {
        true
    }
}

/// Executable form of `may_offer_spec`; dispatch consults it for every
/// handler position.
pub fn may_offer(event: &UserEvent, drag_target: Option<usize>, index: usize) -> (r: bool)
    ensures
        r == may_offer_spec(*event, drag_target, index),
{
    if matches!(event, UserEvent::Drag(..) | UserEvent::DragEnded(..)) {
        match drag_target {
            Some(t) => t == index,
            None => false,
        }
    } else {
        true
    }
}

/// How dispatching one event may move the pinned drag target: dispatching
/// `DragEnded` always clears it, a `DragStarted` may pin it to the handler
/// that consumed it, and no other event touches it.
pub open spec fn dispatch_one_effect(
    pre: Option<usize>,
    ev: UserEvent,
    post: Option<usize>,
) -> bool {
    if ev is DragEnded {
        post is None
    } else if ev is DragStarted {
        post == pre || post is Some
    } else {
        post == pre
    }
}

/// `dispatch_one_effect` chained over a list of events in order.
pub open spec fn dispatch_seq_effect(
    pre: Option<usize>,
    evs: Seq<UserEvent>,
    post: Option<usize>,
) -> bool
    decreases evs.len(),
{
    if evs.len() == 0 {
        post == pre
    } else {
        exists|m: Option<usize>|
            #[trigger] dispatch_one_effect(pre, evs[0], m) && dispatch_seq_effect(
                m,
                evs.drop_first(),
                post,
            )
    }
}

proof fn lemma_dispatch_seq_snoc(
    pre: Option<usize>,
    evs: Seq<UserEvent>,
    m: Option<usize>,
    ev: UserEvent,
    post: Option<usize>,
)
    requires
        dispatch_seq_effect(pre, evs, m),
        dispatch_one_effect(m, ev, post),
    ensures
        dispatch_seq_effect(pre, evs.push(ev), post),
    decreases evs.len(),
{
    if evs.len() == 0 {
        assert(evs.push(ev)[0] == ev);
        assert(evs.push(ev).drop_first() =~= Seq::<UserEvent>::empty());
        assert(dispatch_one_effect(pre, evs.push(ev)[0], post));
        assert(dispatch_seq_effect(post, evs.push(ev).drop_first(), post));
    } else {
        let m0 = choose|m0: Option<usize>|
            #[trigger] dispatch_one_effect(pre, evs[0], m0) && dispatch_seq_effect(
                m0,
                evs.drop_first(),
                m,
            );
        lemma_dispatch_seq_snoc(m0, evs.drop_first(), m, ev, post);
        assert(evs.push(ev).drop_first() =~= evs.drop_first().push(ev));
        assert(evs.push(ev)[0] == evs[0]);
        assert(dispatch_one_effect(pre, evs.push(ev)[0], m0));
        assert(dispatch_seq_effect(m0, evs.push(ev).drop_first(), post));
    }
}

/// `b` agrees with `a` on everything but the pinned drag target.
pub open spec fn core_eq(a: ProcView, b: ProcView) -> bool {
    b == ProcView { drag_target: b.drag_target, ..a }
}

/// Removing one contact keeps the rest within bounds and pairwise
/// distinct, and — under pairwise-distinct ids — leaves no contact with
/// the removed contact's id behind.
proof fn lemma_touch_seq_remove(s: Seq<TouchInfo>, j: int)
    requires
        0 <= j < s.len(),
        forall|i: int| 0 <= i < s.len() ==> touch_in_bounds(#[trigger] s[i]),
        forall|a: int, b: int|
            0 <= a < b < s.len() ==> (#[trigger] s[a]).id != (#[trigger] s[b]).id,
    ensures
        s.remove(j).len() == s.len() - 1,
        forall|k: int| 0 <= k < s.remove(j).len() ==> touch_in_bounds(#[trigger] s.remove(j)[k]),
        forall|a: int, b: int|
            0 <= a < b < s.remove(j).len() ==> (#[trigger] s.remove(j)[a]).id != (
            #[trigger] s.remove(j)[b]).id,
        forall|k: int| 0 <= k < s.remove(j).len() ==> (#[trigger] s.remove(j)[k]).id != s[j].id,
{
    let r = s.remove(j);
    assert forall|k: int| 0 <= k < r.len() implies touch_in_bounds(#[trigger] r[k]) && r[k].id
        != s[j].id by {
        if k < j {
            assert(r[k] == s[k]);
        } else {
            assert(r[k] == s[k + 1]);
        }
    }
    assert forall|a: int, b: int| 0 <= a < b < r.len() implies (#[trigger] r[a]).id != (
    #[trigger] r[b]).id by {
        if a < j {
            assert(r[a] == s[a]);
        } else {
            assert(r[a] == s[a + 1]);
        }
        if b < j {
            assert(r[b] == s[b]);
        } else {
            assert(r[b] == s[b + 1]);
        }
    }
}

/// Stores input state, converts raw events into semantic events and manages
/// the ordered list of event handlers.
pub struct EventProcessor<H> {
    pub handlers: Vec<H>,
    pub pointer_position: Point,
    pub pointer_pressed_position: Point,
    pub touches: Vec<TouchInfo>,
    pub gesture_controller: GestureController,
    pub buttons_state: MouseButtonsState,
    pub last_pressed_time: u64,
    pub last_click_time: u64,
    pub drag_target: Option<usize>,
}

impl<H> View for EventProcessor<H> {
    type V = ProcView;

    open spec fn view(&self) -> ProcView {
        ProcView {
            pointer_position: self.pointer_position,
            pointer_pressed_position: self.pointer_pressed_position,
            touches: self.touches@,
            gesture: self.gesture_controller,
            buttons: self.buttons_state,
            last_pressed_time: self.last_pressed_time,
            last_click_time: self.last_click_time,
            drag_target: self.drag_target,
        }
    }
}

impl<H> EventProcessor<H> {
    /// Well-formed processor: well-formed abstract state, and a pinned drag
    /// target always names a handler in the chain.
    pub open spec fn wf(self) -> bool {
        &&& view_wf(self@)
        &&& match self.drag_target {
            Some(i) => (i as int) < self.handlers@.len(),
            None => true,
        }
    }

    /// Adds a new handler to the end of the handler list.
    pub fn add_handler(&mut self, handler: H)
        requires
            old(self).wf(),
        ensures
            final(self).wf(),
            final(self).handlers@ == old(self).handlers@.push(handler),
            final(self)@ == old(self)@,
    {
        self.handlers.push(handler);
    }

    fn get_mouse_event(&self) -> (r: MouseEvent)
        ensures
            r == mouse_snapshot(self.pointer_position, self.buttons_state),
    {
        MouseEvent { screen_pointer_position: self.pointer_position, buttons: self.buttons_state }
    }

    fn get_mouse_event_pos(&self, screen_pointer_position: Point) -> (r: MouseEvent)
        ensures
            r == mouse_snapshot(screen_pointer_position, self.buttons_state),
    {
        MouseEvent { screen_pointer_position, buttons: self.buttons_state }
    }

    /// The index of the first tracked contact carrying `id`, if any.
    fn find_touch_index(&self, id: u64) -> (r: Option<usize>)
        ensures
            match r {
                Some(j) => {
                    &&& (j as int) < self.touches@.len()
                    &&& self.touches@[j as int].id == id
                    &&& forall|k: int| 0 <= k < j ==> self.touches@[k].id != id
                },
                None => forall|k: int| 0 <= k < self.touches@.len() ==> self.touches@[k].id != id,
            },
    {
        let n = self.touches.len();
        let mut i: usize = 0;
        while i < n
            invariant
                i <= n,
                n == self.touches@.len(),
                forall|k: int| 0 <= k < i ==> self.touches@[k].id != id,
            decreases n - i,
        {
            if self.touches[i].id == id {
                return Some(i);
            }
            i += 1;
        }
        None
    }

    /// Consumes one raw input event: updates the internal state and returns
    /// the ordered semantic events it produces, `None` for raw events with
    /// no observable output. The whole behavior is pinned down by the
    /// transition relation `step`.
    pub fn process(&mut self, event: RawUserEvent, now_ms: u64) -> (r: Option<Vec<UserEvent>>)
        requires
            old(self).wf(),
            raw_event_in_bounds(event),
        ensures
            final(self).wf(),
            final(self).handlers@ == old(self).handlers@,
            step(old(self)@, event, now_ms, final(self)@, events_view(r)),
    {
        match event {
            RawUserEvent::ButtonPressed(button) => Some(
                self.process_button_pressed(button, now_ms),
            ),
            RawUserEvent::ButtonReleased(button) => Some(
                self.process_button_released(button, now_ms),
            ),
            RawUserEvent::PointerMoved(position) => Some(self.process_pointer_moved(position)),
            RawUserEvent::Scroll(delta) => Some(self.process_scroll(delta)),
            RawUserEvent::TouchStart(touch) => {
                self.process_touch_start(touch);
                None
            },
            RawUserEvent::TouchMove(touch) => self.process_touch_move(touch),
            RawUserEvent::TouchEnd(touch) => Some(self.process_touch_end(touch)),
        }
    }

    fn process_button_pressed(&mut self, button: MouseButton, now_ms: u64) -> (r: Vec<UserEvent>)
        requires
            old(self).wf(),
        ensures
            final(self).wf(),
            final(self).handlers@ == old(self).handlers@,
            step_button_pressed(old(self)@, button, now_ms, final(self)@, Some(r@)),
    {
        self.buttons_state.set_pressed(button);
        self.last_pressed_time = now_ms;
        self.pointer_pressed_position = self.pointer_position;
        let mut events: Vec<UserEvent> = Vec::new();
        events.push(UserEvent::ButtonPressed(button, self.get_mouse_event()));
        proof {
            let pre = old(self)@;
            assert(events@ =~= seq![
                UserEvent::ButtonPressed(
                    button,
                    mouse_snapshot(pre.pointer_position, pre.buttons.with_pressed(button)),
                ),
            ]);
            assert(self@.touches == pre.touches);
            assert(forall|i: int|
                0 <= i < self@.touches.len() ==> touch_in_bounds(#[trigger] self@.touches[i]));
            assert(forall|a: int, b: int|
                0 <= a < b < self@.touches.len() ==> (#[trigger] self@.touches[a]).id != (
                #[trigger] self@.touches[b]).id);
        }
        events
    }

    fn process_button_released(&mut self, button: MouseButton, now_ms: u64) -> (r: Vec<UserEvent>)
        requires
            old(self).wf(),
        ensures
            final(self).wf(),
            final(self).handlers@ == old(self).handlers@,
            step_button_released(old(self)@, button, now_ms, final(self)@, Some(r@)),
    {
        self.buttons_state.set_released(button);
        let mut events: Vec<UserEvent> = Vec::new();
        events.push(UserEvent::ButtonReleased(button, self.get_mouse_event()));
        let clicked = now_ms >= self.last_pressed_time && now_ms - self.last_pressed_time
            < CLICK_TIMEOUT_MS;
        if clicked {
            events.push(UserEvent::Click(button, self.get_mouse_event()));
            if now_ms >= self.last_click_time && now_ms - self.last_click_time
                < DOUBLE_CLICK_TIMEOUT_MS {
                events.push(UserEvent::DoubleClick(button, self.get_mouse_event()));
            }
            self.last_click_time = now_ms;
            if self.drag_target.is_some() {
                self.drag_target = None;
                events.push(UserEvent::DragEnded(button, self.get_mouse_event()));
            }
        }
        proof {
            let pre = old(self)@;
            let buttons2 = pre.buttons.with_released(button);
            let snap = mouse_snapshot(pre.pointer_position, buttons2);
            let clicked_s = within_window(pre.last_pressed_time, now_ms, CLICK_TIMEOUT_MS);
            let dbl = clicked_s && within_window(
                pre.last_click_time,
                now_ms,
                DOUBLE_CLICK_TIMEOUT_MS,
            );
            let ended = clicked_s && pre.drag_target is Some;
            assert(events@ =~= seq![UserEvent::ButtonReleased(button, snap)] + (if clicked_s {
                seq![UserEvent::Click(button, snap)]
            } else {
                Seq::<UserEvent>::empty()
            }) + (if dbl {
                seq![UserEvent::DoubleClick(button, snap)]
            } else {
                Seq::<UserEvent>::empty()
            }) + (if ended {
                seq![UserEvent::DragEnded(button, snap)]
            } else {
                Seq::<UserEvent>::empty()
            }));
        }
        proof {
            assert(self@.touches == old(self)@.touches);
            assert(forall|i: int|
                0 <= i < self@.touches.len() ==> touch_in_bounds(#[trigger] self@.touches[i]));
            assert(forall|a: int, b: int|
                0 <= a < b < self@.touches.len() ==> (#[trigger] self@.touches[a]).id != (
                #[trigger] self@.touches[b]).id);
        }
        events
    }

    fn process_pointer_moved(&mut self, position: Point) -> (r: Vec<UserEvent>)
        requires
            old(self).wf(),
            point_in_bounds(position),
        ensures
            final(self).wf(),
            final(self).handlers@ == old(self).handlers@,
            step_pointer_moved(old(self)@, position, final(self)@, Some(r@)),
    {
        let prev_position = self.pointer_position;
        self.pointer_position = position;
        let mut events: Vec<UserEvent> = Vec::new();
        events.push(UserEvent::PointerMoved(self.get_mouse_event()));
        match self.buttons_state.single_pressed() {
            Some(button) => {
                let started = self.drag_target.is_none() && taxicab_distance(
                    position,
                    self.pointer_pressed_position,
                ) > DRAG_THRESHOLD_TAXICAB;
                if started {
                    events.push(
                        UserEvent::DragStarted(
                            button,
                            self.get_mouse_event_pos(self.pointer_pressed_position),
                        ),
                    );
                }
                if self.drag_target.is_some() || started {
                    events.push(
                        UserEvent::Drag(
                            button,
                            point_delta(position, prev_position),
                            self.get_mouse_event(),
                        ),
                    );
                }
            },
            None => {},
        }
        proof {
            let pre = old(self)@;
            let snap = mouse_snapshot(position, pre.buttons);
            match pre.buttons.single_pressed_spec() {
                Some(b) => {
                    let started_s = pre.drag_target is None && taxicab(
                        position,
                        pre.pointer_pressed_position,
                    ) > DRAG_THRESHOLD_TAXICAB;
                    let dragging_s = pre.drag_target is Some || started_s;
                    assert(events@ =~= seq![UserEvent::PointerMoved(snap)] + (if started_s {
                        seq![
                            UserEvent::DragStarted(
                                b,
                                mouse_snapshot(pre.pointer_pressed_position, pre.buttons),
                            ),
                        ]
                    } else {
                        Seq::<UserEvent>::empty()
                    }) + (if dragging_s {
                        seq![
                            UserEvent::Drag(
                                b,
                                delta_of(position, pre.pointer_position),
                                snap,
                            ),
                        ]
                    } else {
                        Seq::<UserEvent>::empty()
                    }));
                },
                None => {
                    assert(events@ =~= seq![UserEvent::PointerMoved(snap)]);
                },
            }
        }
        proof {
            assert(self@.touches == old(self)@.touches);
            assert(forall|i: int|
                0 <= i < self@.touches.len() ==> touch_in_bounds(#[trigger] self@.touches[i]));
            assert(forall|a: int, b: int|
                0 <= a < b < self@.touches.len() ==> (#[trigger] self@.touches[a]).id != (
                #[trigger] self@.touches[b]).id);
        }
        events
    }

    fn process_scroll(&mut self, delta: i64) -> (r: Vec<UserEvent>)
        requires
            old(self).wf(),
        ensures
            final(self).wf(),
            final(self).handlers@ == old(self).handlers@,
            step_scroll(old(self)@, delta, final(self)@, Some(r@)),
    {
        let mut events: Vec<UserEvent> = Vec::new();
        events.push(UserEvent::Scroll(delta, self.get_mouse_event()));
        proof {
            assert(events@ =~= seq![
                UserEvent::Scroll(
                    delta,
                    mouse_snapshot(old(self).pointer_position, old(self).buttons_state),
                ),
            ]);
        }
        proof {
            assert(self@.touches == old(self)@.touches);
            assert(forall|i: int|
                0 <= i < self@.touches.len() ==> touch_in_bounds(#[trigger] self@.touches[i]));
            assert(forall|a: int, b: int|
                0 <= a < b < self@.touches.len() ==> (#[trigger] self@.touches[a]).id != (
                #[trigger] self@.touches[b]).id);
        }
        events
    }

    fn process_touch_start(&mut self, touch: TouchEvent)
        requires
            old(self).wf(),
            point_in_bounds(touch.position),
        ensures
            final(self).wf(),
            final(self).handlers@ == old(self).handlers@,
            step_touch_start(old(self)@, touch, final(self)@, None::<Seq<UserEvent>>),
    {
        let ghost pre_touches = self.touches@;
        proof {
            assert(old(self)@.touches == pre_touches);
            assert(forall|i: int|
                0 <= i < pre_touches.len() ==> touch_in_bounds(#[trigger] pre_touches[i]));
            assert(forall|a: int, b: int|
                0 <= a < b < pre_touches.len() ==> (#[trigger] pre_touches[a]).id != (
                #[trigger] pre_touches[b]).id);
        }
        match self.find_touch_index(touch.touch_id) {
            Some(j) => {
                self.touches.remove(j);
                proof {
                    lemma_touch_seq_remove(pre_touches, j as int);
                    assert(removed_touch(pre_touches, touch.touch_id, self.touches@));
                }
            },
            None => {
                proof {
                    assert(!has_touch(pre_touches, touch.touch_id));
                    assert(removed_touch(pre_touches, touch.touch_id, self.touches@));
                }
            },
        }
        let ghost mid = self.touches@;
        self.touches.push(
            TouchInfo {
                id: touch.touch_id,
                start_position: touch.position,
                prev_position: touch.position,
            },
        );
        if self.touches.len() == 2 {
            proof {
                assert(touch_in_bounds(self.touches@[0]));
                assert(touch_in_bounds(self.touches@[1]));
            }
            let a = self.touches[0];
            let b = self.touches[1];
            self.gesture_controller.start(&a, &b);
        }
        proof {
            let pre = old(self)@;
            assert(removed_touch(pre.touches, touch.touch_id, mid));
            assert(self.touches@ == mid.push(fresh_touch(touch)));
            assert(self@ == ProcView {
                touches: mid.push(fresh_touch(touch)),
                gesture: if mid.len() == 1 {
                    GestureController::start_spec(mid[0].start_position, touch.position)
                } else {
                    pre.gesture
                },
                ..pre
            });
            assert(step_touch_start(pre, touch, self@, None::<Seq<UserEvent>>));
            assert(forall|i: int|
                0 <= i < self@.touches.len() ==> touch_in_bounds(#[trigger] self@.touches[i]));
            assert(forall|a: int, b: int|
                0 <= a < b < self@.touches.len() ==> (#[trigger] self@.touches[a]).id != (
                #[trigger] self@.touches[b]).id);
        }
    }

    fn process_touch_move(&mut self, touch: TouchEvent) -> (r: Option<Vec<UserEvent>>)
        requires
            old(self).wf(),
            point_in_bounds(touch.position),
        ensures
            final(self).wf(),
            final(self).handlers@ == old(self).handlers@,
            step_touch_move(old(self)@, touch, final(self)@, events_view(r)),
    {
        let ghost pre_touches = self.touches@;
        proof {
            assert(old(self)@.touches == pre_touches);
            assert(forall|i: int|
                0 <= i < pre_touches.len() ==> touch_in_bounds(#[trigger] pre_touches[i]));
            assert(forall|a: int, b: int|
                0 <= a < b < pre_touches.len() ==> (#[trigger] pre_touches[a]).id != (
                #[trigger] pre_touches[b]).id);
        }
        let j = match self.find_touch_index(touch.touch_id) {
            Some(j) => j,
            None => {
                proof {
                    assert(!has_touch(self.touches@, touch.touch_id));
                }
                return None;
            },
        };
        proof {
            assert(touch_in_bounds(self.touches@[j as int]));
        }
        let touch_info = self.touches[j];
        let position = touch.position;
        let mut events: Vec<UserEvent> = Vec::new();
        if self.touches.len() == 1 {
            let started = self.drag_target.is_none() && taxicab_distance(
                position,
                touch_info.start_position,
            ) > DRAG_THRESHOLD_TAXICAB;
            if started {
                events.push(
                    UserEvent::DragStarted(
                        MouseButton::Other,
                        self.get_mouse_event_pos(touch_info.start_position),
                    ),
                );
            }
            if self.drag_target.is_some() || started {
                events.push(
                    UserEvent::Drag(
                        MouseButton::Other,
                        point_delta(position, touch_info.prev_position),
                        self.get_mouse_event_pos(position),
                    ),
                );
            }
        } else if self.touches.len() == 2 {
            proof {
                assert(touch_in_bounds(self.touches@[0]));
                assert(touch_in_bounds(self.touches@[1]));
            }
            let t0 = self.touches[0];
            let t1 = self.touches[1];
            let gesture_events = self.gesture_controller.update_gesture(&t0, &t1, &touch);
            events = gesture_events;
        }
        let slot = &mut self.touches[j];
        *slot = TouchInfo {
            id: touch_info.id,
            start_position: touch_info.start_position,
            prev_position: position,
        };
        proof {
            let pre = old(self)@;
            let jj = j as int;
            assert(pre.touches[jj].id == touch.touch_id);
            assert(has_touch(pre.touches, touch.touch_id));
            let spec_touch = pre.touches[jj];
            let touches2 = pre.touches.update(
                jj,
                TouchInfo { prev_position: touch.position, ..spec_touch },
            );
            assert(self.touches@ =~= touches2);
            assert(forall|i: int|
                0 <= i < self@.touches.len() ==> touch_in_bounds(#[trigger] self@.touches[i]));
            assert(forall|a: int, b: int|
                0 <= a < b < self@.touches.len() ==> (#[trigger] self@.touches[a]).id != (
                #[trigger] self@.touches[b]).id);
            if pre.touches.len() == 1 {
                let started_s = pre.drag_target is None && taxicab(
                    touch.position,
                    spec_touch.start_position,
                ) > DRAG_THRESHOLD_TAXICAB;
                let dragging_s = pre.drag_target is Some || started_s;
                assert(events@ =~= (if started_s {
                    seq![
                        UserEvent::DragStarted(
                            MouseButton::Other,
                            mouse_snapshot(spec_touch.start_position, pre.buttons),
                        ),
                    ]
                } else {
                    Seq::<UserEvent>::empty()
                }) + (if dragging_s {
                    seq![
                        UserEvent::Drag(
                            MouseButton::Other,
                            delta_of(touch.position, spec_touch.prev_position),
                            mouse_snapshot(touch.position, pre.buttons),
                        ),
                    ]
                } else {
                    Seq::<UserEvent>::empty()
                }));
                assert(self@ == ProcView { touches: touches2, ..pre });
            } else if pre.touches.len() == 2 {
                assert(touch.touch_id == pre.touches[0].id || touch.touch_id
                    == pre.touches[1].id);
                assert(events@ =~= seq![
                    pre.gesture.event_after(pre.touches[0], pre.touches[1], touch),
                ]);
                assert(self@ == ProcView {
                    touches: touches2,
                    gesture: GestureController {
                        touch_mode: pre.gesture.mode_after(
                            pre.touches[0],
                            pre.touches[1],
                            touch,
                        ),
                        ..pre.gesture
                    },
                    ..pre
                });
            } else {
                assert(events@ =~= Seq::<UserEvent>::empty());
                assert(self@ == ProcView { touches: touches2, ..pre });
            }
            assert(step_touch_move(pre, touch, self@, Some(events@)));
        }
        Some(events)
    }

    fn process_touch_end(&mut self, touch: TouchEvent) -> (r: Vec<UserEvent>)
        requires
            old(self).wf(),
            point_in_bounds(touch.position),
        ensures
            final(self).wf(),
            final(self).handlers@ == old(self).handlers@,
            step_touch_end(old(self)@, touch, final(self)@, Some(r@)),
    {
        let ghost pre_touches = self.touches@;
        proof {
            assert(old(self)@.touches == pre_touches);
            assert(forall|i: int|
                0 <= i < pre_touches.len() ==> touch_in_bounds(#[trigger] pre_touches[i]));
            assert(forall|a: int, b: int|
                0 <= a < b < pre_touches.len() ==> (#[trigger] pre_touches[a]).id != (
                #[trigger] pre_touches[b]).id);
        }
        match self.find_touch_index(touch.touch_id) {
            Some(j) => {
                self.touches.remove(j);
                proof {
                    lemma_touch_seq_remove(pre_touches, j as int);
                    assert(removed_touch(pre_touches, touch.touch_id, self.touches@));
                }
            },
            None => {
                proof {
                    assert(!has_touch(pre_touches, touch.touch_id));
                    assert(removed_touch(pre_touches, touch.touch_id, self.touches@));
                }
            },
        }
        let ghost mid = self.touches@;
        let mut events: Vec<UserEvent> = Vec::new();
        if self.drag_target.is_some() && self.touches.len() == 0 {
            self.drag_target = None;
            events.push(
                UserEvent::DragEnded(
                    MouseButton::Other,
                    self.get_mouse_event_pos(touch.position),
                ),
            );
        }
        proof {
            let pre = old(self)@;
            let ended = pre.drag_target is Some && mid.len() == 0;
            assert(removed_touch(pre.touches, touch.touch_id, mid));
            assert(events@ =~= (if ended {
                seq![
                    UserEvent::DragEnded(
                        MouseButton::Other,
                        mouse_snapshot(touch.position, pre.buttons),
                    ),
                ]
            } else {
                Seq::<UserEvent>::empty()
            }));
            assert(self@ == ProcView {
                touches: mid,
                drag_target: if ended {
                    None
                } else {
                    pre.drag_target
                },
                ..pre
            });
            assert(step_touch_end(pre, touch, self@, Some(events@)));
            assert(forall|i: int|
                0 <= i < self@.touches.len() ==> touch_in_bounds(#[trigger] self@.touches[i]));
            assert(forall|a: int, b: int|
                0 <= a < b < self@.touches.len() ==> (#[trigger] self@.touches[a]).id != (
                #[trigger] self@.touches[b]).id);
        }
        events
    }
}

impl<H: UserEventHandler> EventProcessor<H> {
    /// Offer one semantic event to the handlers in chain order, honoring
    /// `may_offer_spec`: dispatch halts at the first `Stop` or `Consume`; a
    /// handler that consumes a `DragStarted` becomes the pinned drag
    /// target, and once a `DragEnded` has been dispatched the pin is
    /// cleared whatever the handlers answered.
    fn dispatch_one(&mut self, event: &UserEvent, ctx: &mut H::Context)
        requires
            old(self).wf(),
        ensures
            final(self).wf(),
            final(self).handlers@.len() == old(self).handlers@.len(),
            core_eq(old(self)@, final(self)@),
            dispatch_one_effect(old(self)@.drag_target, *event, final(self)@.drag_target),
    {
        let mut drag_start_target: Option<usize> = None;
        let n = self.handlers.len();
        let mut i: usize = 0;
        let mut halted = false;
        while i < n && !halted
            invariant
                i <= n,
                n == self.handlers@.len(),
                self@ == old(self)@,
                self.wf(),
                match drag_start_target {
                    Some(k) => (k as int) < n && *event is DragStarted,
                    None => true,
                },
            decreases n - i,
        {
            if may_offer(event, self.drag_target, i) {
                let response = self.handlers[i].handle(event, ctx);
                match response {
                    EventPropagation::Propagate => {},
                    EventPropagation::Stop => {
                        halted = true;
                    },
                    EventPropagation::Consume => {
                        if matches!(event, UserEvent::DragStarted(..)) {
                            drag_start_target = Some(i);
                        }
                        halted = true;
                    },
                }
            }
            i += 1;
        }
        if drag_start_target.is_some() {
            self.drag_target = drag_start_target;
        }
        if matches!(event, UserEvent::DragEnded(..)) {
            self.drag_target = None;
        }
        proof {
            assert(self@.touches == old(self)@.touches);
            assert(forall|i: int|
                0 <= i < self@.touches.len() ==> touch_in_bounds(#[trigger] self@.touches[i]));
            assert(forall|a: int, b: int|
                0 <= a < b < self@.touches.len() ==> (#[trigger] self@.touches[a]).id != (
                #[trigger] self@.touches[b]).id);
        }
    }

    /// Handles one raw event arriving at `now_ms`: processes it into its
    /// semantic events and dispatches each, in order, through the handler
    /// chain. The processor state evolves by the `step` relation, except
    /// that dispatch may additionally move the pinned drag target as
    /// `dispatch_seq_effect` allows.
    pub fn handle(&mut self, event: RawUserEvent, now_ms: u64, ctx: &mut H::Context)
        requires
            old(self).wf(),
            raw_event_in_bounds(event),
        ensures
            final(self).wf(),
            final(self).handlers@.len() == old(self).handlers@.len(),
            exists|mid: ProcView, out: Option<Seq<UserEvent>>|
                {
                    &&& #[trigger] step(old(self)@, event, now_ms, mid, out)
                    &&& core_eq(mid, final(self)@)
                    &&& match out {
                        Some(evs) => dispatch_seq_effect(
                            mid.drag_target,
                            evs,
                            final(self)@.drag_target,
                        ),
                        None => final(self)@.drag_target == mid.drag_target,
                    }
                },
    {
        let events_opt = self.process(event, now_ms);
        let ghost mid_view = self@;
        let ghost out_view = events_view(events_opt);
        match events_opt {
            Some(events) => {
                let n = events.len();
                let mut k: usize = 0;
                while k < n
                    invariant
                        k <= n,
                        n == events@.len(),
                        self.wf(),
                        self.handlers@.len() == old(self).handlers@.len(),
                        core_eq(mid_view, self@),
                        dispatch_seq_effect(
                            mid_view.drag_target,
                            events@.take(k as int),
                            self@.drag_target,
                        ),
                    decreases n - k,
                {
                    let ghost pre_dt = self@.drag_target;
                    let ev = events[k];
                    self.dispatch_one(&ev, ctx);
                    proof {
                        lemma_dispatch_seq_snoc(
                            mid_view.drag_target,
                            events@.take(k as int),
                            pre_dt,
                            events@[k as int],
                            self@.drag_target,
                        );
                        assert(events@.take(k as int).push(events@[k as int]) =~= events@.take(
                            k as int + 1,
                        ));
                    }
                    k += 1;
                }
                proof {
                    assert(events@.take(n as int) =~= events@);
                    assert(step(old(self)@, event, now_ms, mid_view, out_view));
                }
            },
            None => {
                proof {
                    assert(step(old(self)@, event, now_ms, mid_view, out_view));
                }
            },
        }
    }
}

impl<H> Default for EventProcessor<H> {
    /// A processor with no handlers, in the initial state.
    fn default() -> (r: Self)
        ensures
            r.wf(),
            r@ == initial_view(),
            r.handlers@ == Seq::<H>::empty(),
    {
        EventProcessor {
            handlers: Vec::new(),
            pointer_position: Point { x: 0, y: 0 },
            pointer_pressed_position: Point { x: 0, y: 0 },
            touches: Vec::new(),
            gesture_controller: GestureController::default(),
            buttons_state: MouseButtonsState::default(),
            last_pressed_time: 0,
            last_click_time: 0,
            drag_target: None,
        }
    }
}

/// Law (drag pinning): a `Drag` or `DragEnded` event may be offered to the
/// pinned drag-target handler and to no other; with no pinned target it
/// reaches no handler at all.
pub proof fn lemma_drag_pinning(event: UserEvent, index: usize, t: usize)
    requires
        event is Drag || event is DragEnded,
    ensures
        may_offer_spec(event, Some(t), index) <==> index == t,
        !may_offer_spec(event, None, index),
{
}

/// Law (click detection): a button release yields a `Click` among its
/// events exactly when it comes within the click window of the last press.
pub proof fn lemma_click_window(
    pre: ProcView,
    b: MouseButton,
    now_ms: u64,
    post: ProcView,
    out: Option<Seq<UserEvent>>,
)
    requires
        step_button_released(pre, b, now_ms, post, out),
    ensures
        out matches Some(evs) && ((exists|i: int| 0 <= i < evs.len() && evs[i] is Click)
            <==> within_window(pre.last_pressed_time, now_ms, CLICK_TIMEOUT_MS)),
{
    let buttons2 = pre.buttons.with_released(b);
    let snap = mouse_snapshot(pre.pointer_position, buttons2);
    let clicked = within_window(pre.last_pressed_time, now_ms, CLICK_TIMEOUT_MS);
    let dbl = clicked && within_window(pre.last_click_time, now_ms, DOUBLE_CLICK_TIMEOUT_MS);
    let ended = clicked && pre.drag_target is Some;
    let evs = (seq![UserEvent::ButtonReleased(b, snap)] + (if clicked {
        seq![UserEvent::Click(b, snap)]
    } else {
        Seq::<UserEvent>::empty()
    }) + (if dbl {
        seq![UserEvent::DoubleClick(b, snap)]
    } else {
        Seq::<UserEvent>::empty()
    }) + (if ended {
        seq![UserEvent::DragEnded(b, snap)]
    } else {
        Seq::<UserEvent>::empty()
    }));
    assert(out == Some(evs));
    if clicked {
        assert(evs[1] == UserEvent::Click(b, snap));
        assert(0 <= 1 < evs.len() && evs[1] is Click);
    } else {
        assert(evs =~= seq![UserEvent::ButtonReleased(b, snap)]);
        assert(forall|i: int| 0 <= i < evs.len() ==> !((#[trigger] evs[i]) is Click));
    }
}

/// Law (double-click detection): a release yields a `DoubleClick` exactly
/// when it yields a `Click` that also comes within the double-click window
/// of the previous click.
pub proof fn lemma_double_click_window(
    pre: ProcView,
    b: MouseButton,
    now_ms: u64,
    post: ProcView,
    out: Option<Seq<UserEvent>>,
)
    requires
        step_button_released(pre, b, now_ms, post, out),
    ensures
        out matches Some(evs) && ((exists|i: int| 0 <= i < evs.len() && evs[i] is DoubleClick)
            <==> (within_window(pre.last_pressed_time, now_ms, CLICK_TIMEOUT_MS) && within_window(
            pre.last_click_time,
            now_ms,
            DOUBLE_CLICK_TIMEOUT_MS,
        ))),
{
    let buttons2 = pre.buttons.with_released(b);
    let snap = mouse_snapshot(pre.pointer_position, buttons2);
    let clicked = within_window(pre.last_pressed_time, now_ms, CLICK_TIMEOUT_MS);
    let dbl = clicked && within_window(pre.last_click_time, now_ms, DOUBLE_CLICK_TIMEOUT_MS);
    let ended = clicked && pre.drag_target is Some;
    let evs = (seq![UserEvent::ButtonReleased(b, snap)] + (if clicked {
        seq![UserEvent::Click(b, snap)]
    } else {
        Seq::<UserEvent>::empty()
    }) + (if dbl {
        seq![UserEvent::DoubleClick(b, snap)]
    } else {
        Seq::<UserEvent>::empty()
    }) + (if ended {
        seq![UserEvent::DragEnded(b, snap)]
    } else {
        Seq::<UserEvent>::empty()
    }));
    assert(out == Some(evs));
    if dbl {
        assert(evs[2] == UserEvent::DoubleClick(b, snap));
        assert(0 <= 2 < evs.len() && evs[2] is DoubleClick);
    } else if clicked && ended {
        assert(evs =~= seq![
            UserEvent::ButtonReleased(b, snap),
            UserEvent::Click(b, snap),
            UserEvent::DragEnded(b, snap),
        ]);
        assert(forall|i: int| 0 <= i < evs.len() ==> !((#[trigger] evs[i]) is DoubleClick));
    } else if clicked {
        assert(evs =~= seq![UserEvent::ButtonReleased(b, snap), UserEvent::Click(b, snap)]);
        assert(forall|i: int| 0 <= i < evs.len() ==> !((#[trigger] evs[i]) is DoubleClick));
    } else {
        assert(evs =~= seq![UserEvent::ButtonReleased(b, snap)]);
        assert(forall|i: int| 0 <= i < evs.len() ==> !((#[trigger] evs[i]) is DoubleClick));
    }
}

/// Law (drag threshold): a pointer move with exactly one button pressed
/// emits `DragStarted` exactly when no drag is active yet and the taxicab
/// distance from the press origin exceeds the drag threshold; it emits
/// `Drag` exactly when a drag is active or starts now — so motion at or
/// under the threshold emits neither, and while a drag is pinned every
/// move emits `Drag` and never a second `DragStarted`.
pub proof fn lemma_drag_threshold(
    pre: ProcView,
    p: Point,
    post: ProcView,
    out: Option<Seq<UserEvent>>,
)
    requires
        step_pointer_moved(pre, p, post, out),
        pre.buttons.single_pressed_spec() is Some,
    ensures
        out matches Some(evs) && ((exists|i: int| 0 <= i < evs.len() && evs[i] is DragStarted)
            <==> (pre.drag_target is None && taxicab(p, pre.pointer_pressed_position)
            > DRAG_THRESHOLD_TAXICAB)),
        out matches Some(evs) && ((exists|i: int| 0 <= i < evs.len() && evs[i] is Drag)
            <==> (pre.drag_target is Some || taxicab(p, pre.pointer_pressed_position)
            > DRAG_THRESHOLD_TAXICAB)),
{
    let snap = mouse_snapshot(p, pre.buttons);
    let b = pre.buttons.single_pressed_spec()->0;
    let started = pre.drag_target is None && taxicab(p, pre.pointer_pressed_position)
        > DRAG_THRESHOLD_TAXICAB;
    let dragging = pre.drag_target is Some || started;
    let evs = (seq![UserEvent::PointerMoved(snap)] + (if started {
        seq![UserEvent::DragStarted(b, mouse_snapshot(pre.pointer_pressed_position, pre.buttons))]
    } else {
        Seq::<UserEvent>::empty()
    }) + (if dragging {
        seq![UserEvent::Drag(b, delta_of(p, pre.pointer_position), snap)]
    } else {
        Seq::<UserEvent>::empty()
    }));
    assert(out == Some(evs));
    if started {
        assert(evs[1] is DragStarted);
        assert(evs[2] is Drag);
        assert(0 <= 1 < evs.len() && 0 <= 2 < evs.len());
    } else if dragging {
        assert(evs =~= seq![
            UserEvent::PointerMoved(snap),
            UserEvent::Drag(b, delta_of(p, pre.pointer_position), snap),
        ]);
        assert(forall|i: int| 0 <= i < evs.len() ==> !((#[trigger] evs[i]) is DragStarted));
        assert(evs[1] is Drag);
    } else {
        assert(evs =~= seq![UserEvent::PointerMoved(snap)]);
        assert(forall|i: int| 0 <= i < evs.len() ==> !((#[trigger] evs[i]) is DragStarted));
        assert(forall|i: int| 0 <= i < evs.len() ==> !((#[trigger] evs[i]) is Drag));
    }
}

/// Law (unknown-id resilience): a touch move whose id matches no tracked
/// contact produces no semantic events and leaves every part of the state
/// as it was.
pub proof fn lemma_unknown_touch_ignored(
    pre: ProcView,
    t: TouchEvent,
    post: ProcView,
    out: Option<Seq<UserEvent>>,
)
    requires
        step_touch_move(pre, t, post, out),
        !has_touch(pre.touches, t.touch_id),
    ensures
        post == pre,
        out is None,
{
}

} // verus!
