//! Normalizes low-level pointer and touch input into semantic interaction
//! events (clicks, double-clicks, drag lifecycle, two-finger gestures) and
//! dispatches them through an ordered chain of handlers.
//!
//! Screen positions are modeled as integer (pixel) coordinates, so every
//! geometric decision the library makes — drag thresholds, gesture mode
//! classification — is exact integer arithmetic with a proved contract.
//! Quantities that are irrational in real-valued terms (a zoom factor, a
//! rotation angle) are carried in events as the exact integer data they are
//! derived from (squared distances, direction vectors); consumers that want
//! floating-point values derive them outside the library.

pub mod events;
pub mod geom;
pub mod gesture;
pub mod processor;

pub use events::{
    EventPropagation, MouseButton, MouseButtonsState, MouseEvent, RawUserEvent, TouchEvent,
    UserEvent,
};
pub use geom::{Delta, Point};
pub use gesture::{GestureController, TouchInfo, TouchMode};
pub use processor::{EventProcessor, UserEventHandler};
