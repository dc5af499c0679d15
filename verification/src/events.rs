//! Wire-level event records and the event-type/code constants of the
//! kernel input protocol that the decoder recognises.

use vstd::prelude::*;

verus! {

/// Event type of a frame-sync marker (end of a batch of updates).
pub const EV_SYN: u16 = 0;

/// Event type of a key transition (button press or release).
pub const EV_KEY: u16 = 1;

/// Event type of an absolute-axis update.
pub const EV_ABS: u16 = 3;

/// Absolute axis: X position.
pub const ABS_X: u16 = 0;

/// Absolute axis: Y position.
pub const ABS_Y: u16 = 1;

/// Absolute axis: contact pressure.
pub const ABS_PRESSURE: u16 = 24;

/// Absolute axis: pen tilt around the X axis.
pub const ABS_TILT_X: u16 = 26;

/// Absolute axis: pen tilt around the Y axis.
pub const ABS_TILT_Y: u16 = 27;

/// Absolute axis: major axis of a multi-touch contact ellipse.
pub const ABS_MT_TOUCH_MAJOR: u16 = 48;

/// Absolute axis: multi-touch X position.
pub const ABS_MT_POSITION_X: u16 = 53;

/// Absolute axis: multi-touch Y position.
pub const ABS_MT_POSITION_Y: u16 = 54;

/// Absolute axis: multi-touch slot tracking id; the value -1 signals
/// that the slot's contact has ended.
pub const ABS_MT_TRACKING_ID: u16 = 57;

/// Key code of the contact button (binary touch/no-touch signal).
pub const BTN_TOUCH: u16 = 330;

/// One raw wire event: a direct mirror of a kernel input-event record
/// with the timestamp dropped.
#[derive(Clone, Copy, Debug, PartialEq, Eq, Structural)]
pub struct RawInputEvent {
    pub event_type: u16,
    pub code: u16,
    pub value: i32,
}

/// The pointer-lifecycle phase a decoded event reports.
#[derive(Clone, Copy, Debug, PartialEq, Eq, Structural)]
pub enum PointerKind {
    Down,
    Move,
    Up,
}

/// One decoded pointer event. Axis fields hold the last known value of
/// each axis at the moment of emission; axes the device class never
/// reports stay 0.
#[derive(Clone, Copy, Debug, PartialEq, Eq, Structural)]
pub struct StylusEvent {
    pub x: i32,
    pub y: i32,
    pub pressure: i32,
    pub tilt_x: i32,
    pub tilt_y: i32,
    pub touch_major: i32,
    pub kind: PointerKind,
}

} // verus!
