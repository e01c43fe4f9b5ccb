//! The events that come in from the controller and go out to the virtual
//! device.

use vstd::prelude::*;
use crate::axis::Axis;
use crate::codes::{EV_KEY, EV_REL, REL_X, REL_Y};

verus! {

/// The time at which the kernel saw an event.
#[derive(Clone, Copy, Debug, PartialEq, Eq, Structural)]
pub struct Timestamp {
    pub secs: i64,
    pub micros: i64,
}

/// An event as the physical device reports it.
#[derive(Clone, Copy, Debug, PartialEq, Eq, Structural)]
pub struct RawInputEvent {
    pub event_type: u16,
    pub code: u16,
    pub value: i32,
    pub timestamp: Timestamp,
}

/// An event for the virtual device.
#[derive(Clone, Copy, Debug, PartialEq, Eq, Structural)]
pub struct VirtualOutputEvent {
    pub event_type: u16,
    pub code: u16,
    pub value: i32,
}

/// The code of relative motion along an axis.
pub open spec fn motion_code(axis: Axis) -> u16 {
    match axis {
        Axis::X => REL_X,
        Axis::Y => REL_Y,
    }
}

impl RawInputEvent {
    /// An event without a time, as a caller makes one by hand.
    pub fn new(event_type: u16, code: u16, value: i32) -> (event: RawInputEvent)
        ensures
            event == (RawInputEvent {
                event_type,
                code,
                value,
                timestamp: Timestamp { secs: 0, micros: 0 },
            }),
    {
        RawInputEvent { event_type, code, value, timestamp: Timestamp { secs: 0, micros: 0 } }
    }
}

impl VirtualOutputEvent {
    /// A press, release or repeat of a key or button.
    pub open spec fn spec_key(code: u16, value: i32) -> VirtualOutputEvent {
        VirtualOutputEvent { event_type: EV_KEY, code, value }
    }

    /// Relative motion along an axis.
    pub open spec fn spec_motion(axis: Axis, value: i32) -> VirtualOutputEvent {
        VirtualOutputEvent { event_type: EV_REL, code: motion_code(axis), value }
    }

    /// The axis that the event moves along, if it is a motion.
    pub open spec fn spec_axis(&self) -> Option<Axis> {
        if self.event_type == EV_REL && self.code == REL_X {
            Some(Axis::X)
        } else if self.event_type == EV_REL && self.code == REL_Y {
            Some(Axis::Y)
        } else {
            None
        }
    }

    /// A press, release or repeat of a key or button.
    pub fn key(code: u16, value: i32) -> (event: VirtualOutputEvent)
        ensures
            event == Self::spec_key(code, value),
    {
        VirtualOutputEvent { event_type: EV_KEY, code, value }
    }

    /// Relative motion along an axis.
    pub fn motion(axis: Axis, value: i32) -> (event: VirtualOutputEvent)
        ensures
            event == Self::spec_motion(axis, value),
            event.spec_axis() == Some(axis),
    {
        let code: u16 = match axis {
            Axis::X => REL_X,
            Axis::Y => REL_Y,
        };
        VirtualOutputEvent { event_type: EV_REL, code, value }
    }

    /// The axis that the event moves along, if it is a motion.
    pub fn axis(&self) -> (axis: Option<Axis>)
        ensures
            axis == self.spec_axis(),
    {
        if self.event_type == EV_REL && self.code == REL_X {
            Some(Axis::X)
        } else if self.event_type == EV_REL && self.code == REL_Y {
            Some(Axis::Y)
        } else {
            None
        }
    }
}

} // verus!
