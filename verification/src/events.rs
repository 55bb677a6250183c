//! The raw input vocabulary the processor consumes and the semantic event
//! vocabulary it produces, together with the pointer-button state.

use vstd::prelude::*;

use crate::geom::{Delta, Point};

verus! {

/// A pointer button. `Other` also stands in for single-touch drags.
#[derive(Clone, Copy, Debug, PartialEq, Eq, Structural)]
pub enum MouseButton {
    Left,
    Middle,
    Right,
    Other,
}

/// The set of pointer buttons currently held down.
#[derive(Clone, Copy, Debug, PartialEq, Eq, Structural)]
pub struct MouseButtonsState {
    pub left: bool,
    pub middle: bool,
    pub right: bool,
    pub other: bool,
}

impl MouseButtonsState {
    /// The state with no button pressed.
    pub open spec fn none_spec() -> MouseButtonsState {
        MouseButtonsState { left: false, middle: false, right: false, other: false }
    }

    pub open spec fn is_pressed_spec(self, button: MouseButton) -> bool {
        match button {
            MouseButton::Left => self.left,
            MouseButton::Middle => self.middle,
            MouseButton::Right => self.right,
            MouseButton::Other => self.other,
        }
    }

    /// `self` with `button` marked pressed.
    pub open spec fn with_pressed(self, button: MouseButton) -> MouseButtonsState {
        match button {
            MouseButton::Left => MouseButtonsState { left: true, ..self },
            MouseButton::Middle => MouseButtonsState { middle: true, ..self },
            MouseButton::Right => MouseButtonsState { right: true, ..self },
            MouseButton::Other => MouseButtonsState { other: true, ..self },
        }
    }

    /// `self` with `button` marked released.
    pub open spec fn with_released(self, button: MouseButton) -> MouseButtonsState {
        match button {
            MouseButton::Left => MouseButtonsState { left: false, ..self },
            MouseButton::Middle => MouseButtonsState { middle: false, ..self },
            MouseButton::Right => MouseButtonsState { right: false, ..self },
            MouseButton::Other => MouseButtonsState { other: false, ..self },
        }
    }

    /// The button pressed, when exactly one is.
    pub open spec fn single_pressed_spec(self) -> Option<MouseButton> {
        if self.left && !self.middle && !self.right && !self.other {
            Some(MouseButton::Left)
        } else if !self.left && self.middle && !self.right && !self.other {
            Some(MouseButton::Middle)
        } else if !self.left && !self.middle && self.right && !self.other {
            Some(MouseButton::Right)
        } else if !self.left && !self.middle && !self.right && self.other {
            Some(MouseButton::Other)
        } else {
            None
        }
    }

    pub fn set_pressed(&mut self, button: MouseButton)
        ensures
            *final(self) == old(self).with_pressed(button),
    {
        match button {
            MouseButton::Left => self.left = true,
            MouseButton::Middle => self.middle = true,
            MouseButton::Right => self.right = true,
            MouseButton::Other => self.other = true,
        }
    }

    pub fn set_released(&mut self, button: MouseButton)
        ensures
            *final(self) == old(self).with_released(button),
    {
        match button {
            MouseButton::Left => self.left = false,
            MouseButton::Middle => self.middle = false,
            MouseButton::Right => self.right = false,
            MouseButton::Other => self.other = false,
        }
    }

    pub fn is_pressed(&self, button: MouseButton) -> (r: bool)
        ensures
            r == self.is_pressed_spec(button),
    {
        match button {
            MouseButton::Left => self.left,
            MouseButton::Middle => self.middle,
            MouseButton::Right => self.right,
            MouseButton::Other => self.other,
        }
    }

    /// Returns the single pressed button, or `None` when none or several
    /// are pressed.
    pub fn single_pressed(&self) -> (r: Option<MouseButton>)
        ensures
            r == self.single_pressed_spec(),
    {
        if self.left && !self.middle && !self.right && !self.other {
            Some(MouseButton::Left)
        } else if !self.left && self.middle && !self.right && !self.other {
            Some(MouseButton::Middle)
        } else if !self.left && !self.middle && self.right && !self.other {
            Some(MouseButton::Right)
        } else if !self.left && !self.middle && !self.right && self.other {
            Some(MouseButton::Other)
        } else {
            None
        }
    }
}

impl Default for MouseButtonsState {
    fn default() -> (r: Self)
        ensures
            r == MouseButtonsState::none_spec(),
    {
        MouseButtonsState { left: false, middle: false, right: false, other: false }
    }
}

/// The pointer-state snapshot attached to most semantic events.
#[derive(Clone, Copy, Debug, PartialEq, Eq, Structural)]
pub struct MouseEvent {
    pub screen_pointer_position: Point,
    pub buttons: MouseButtonsState,
}

/// A raw touch transition: which contact, and where it is now.
#[derive(Clone, Copy, Debug, PartialEq, Eq, Structural)]
pub struct TouchEvent {
    pub touch_id: u64,
    pub position: Point,
}

/// A raw platform input event, as the host hands it to the processor.
#[derive(Clone, Copy, Debug, PartialEq, Eq, Structural)]
pub enum RawUserEvent {
    ButtonPressed(MouseButton),
    ButtonReleased(MouseButton),
    PointerMoved(Point),
    Scroll(i64),
    TouchStart(TouchEvent),
    TouchMove(TouchEvent),
    TouchEnd(TouchEvent),
}

/// A semantic interaction event.
///
/// The two-touch gesture events carry exact integer payloads:
/// - `Pan` carries the midpoint delta and the new midpoint in doubled
///   coordinates (twice their real value, so halves of a pixel stay exact);
/// - `Zoom` carries the previous and current squared inter-touch distances —
///   the zoom factor is the square root of their ratio — and the position of
///   the stationary contact as the anchor;
/// - `Rotate` carries the tilt amount in doubled coordinates and the
///   previous and current inter-touch direction vectors — the rotation is
///   the negated difference of their direction angles, zero when they are
///   the same vector.
#[derive(Clone, Copy, Debug, PartialEq, Eq, Structural)]
pub enum UserEvent {
    ButtonPressed(MouseButton, MouseEvent),
    ButtonReleased(MouseButton, MouseEvent),
    Click(MouseButton, MouseEvent),
    DoubleClick(MouseButton, MouseEvent),
    PointerMoved(MouseEvent),
    Scroll(i64, MouseEvent),
    DragStarted(MouseButton, MouseEvent),
    Drag(MouseButton, Delta, MouseEvent),
    DragEnded(MouseButton, MouseEvent),
    Pan { delta_doubled: Delta, midpoint_doubled: Point },
    Zoom { dist_sq_prev: u64, dist_sq_new: u64, anchor: Point },
    Rotate { tilt_doubled: i64, dir_prev: Delta, dir_new: Delta },
}

/// How a handler answers an offered event: pass it on, halt its dispatch,
/// or halt and — for a drag start — claim the drag.
#[derive(Clone, Copy, Debug, PartialEq, Eq, Structural)]
pub enum EventPropagation {
    Propagate,
    Stop,
    Consume,
}

} // verus!
