//! The fixed table from physical events to virtual ones.

use vstd::prelude::*;
use crate::axis::{Axis, StickConstants};
use crate::codes::{
    ABS_RX, ABS_RY, ABS_X, ABS_Y, BTN_EAST, BTN_LEFT, BTN_MIDDLE, BTN_NORTH, BTN_RIGHT, BTN_SOUTH,
    BTN_THUMBL, BTN_THUMBR, BTN_TL, BTN_TL2, BTN_TR, BTN_TR2, BTN_WEST, EV_ABS, EV_KEY, KEY_DOWN,
    KEY_LEFT, KEY_RIGHT, KEY_UP,
};
use crate::event::{RawInputEvent, VirtualOutputEvent};

verus! {

/// What a physical input stands for on the virtual device.
#[derive(Clone, Copy, Debug, PartialEq, Eq, Structural)]
pub enum Target {
    /// The key or button of this code; presses and releases pass through.
    Key(u16),
    /// Motion along this axis, by way of the response curve.
    Motion(Axis),
}

/// The table, keyed by event type and code. What is not in it is dropped.
pub open spec fn translation_table() -> Map<(u16, u16), Target> {
    map![
        (EV_KEY, BTN_TL2) => Target::Key(BTN_LEFT),
        (EV_KEY, BTN_TR2) => Target::Key(BTN_LEFT),
        (EV_KEY, BTN_TL) => Target::Key(BTN_RIGHT),
        (EV_KEY, BTN_TR) => Target::Key(BTN_RIGHT),
        (EV_KEY, BTN_THUMBL) => Target::Key(BTN_MIDDLE),
        (EV_KEY, BTN_THUMBR) => Target::Key(BTN_MIDDLE),
        (EV_KEY, BTN_EAST) => Target::Key(KEY_RIGHT),
        (EV_KEY, BTN_SOUTH) => Target::Key(KEY_DOWN),
        (EV_KEY, BTN_NORTH) => Target::Key(KEY_UP),
        (EV_KEY, BTN_WEST) => Target::Key(KEY_LEFT),
        (EV_ABS, ABS_X) => Target::Motion(Axis::X),
        (EV_ABS, ABS_RX) => Target::Motion(Axis::X),
        (EV_ABS, ABS_Y) => Target::Motion(Axis::Y),
        (EV_ABS, ABS_RY) => Target::Motion(Axis::Y),
    ]
}

/// The entry of the table for an event type and code, if there is one.
pub open spec fn spec_lookup(event_type: u16, code: u16) -> Option<Target> {
    if translation_table().dom().contains((event_type, code)) {
        Some(translation_table()[(event_type, code)])
    } else {
        None
    }
}

/// The virtual event for a physical one, if there is one.
pub open spec fn spec_map_event(event: RawInputEvent, constants: StickConstants) -> Option<
    VirtualOutputEvent,
> {
    match spec_lookup(event.event_type, event.code) {
        Some(Target::Key(code)) => Some(VirtualOutputEvent::spec_key(code, event.value)),
        Some(Target::Motion(axis)) => Some(
            VirtualOutputEvent::spec_motion(
                axis,
                constants.spec_map_axis(axis, event.value) as i32,
            ),
        ),
        None => None,
    }
}

/// Looks an event type and code up in the table.
pub fn lookup(event_type: u16, code: u16) -> (target: Option<Target>)
    ensures
        target == spec_lookup(event_type, code),
        target is None <==> !translation_table().dom().contains((event_type, code)),
{
    if event_type == EV_KEY {
        if code == BTN_TL2 || code == BTN_TR2 {
            Some(Target::Key(BTN_LEFT))
        } else if code == BTN_TL || code == BTN_TR {
            Some(Target::Key(BTN_RIGHT))
        } else if code == BTN_THUMBL || code == BTN_THUMBR {
            Some(Target::Key(BTN_MIDDLE))
        } else if code == BTN_EAST {
            Some(Target::Key(KEY_RIGHT))
        } else if code == BTN_SOUTH {
            Some(Target::Key(KEY_DOWN))
        } else if code == BTN_NORTH {
            Some(Target::Key(KEY_UP))
        } else if code == BTN_WEST {
            Some(Target::Key(KEY_LEFT))
        } else {
            None
        }
    } else if event_type == EV_ABS {
        if code == ABS_X || code == ABS_RX {
            Some(Target::Motion(Axis::X))
        } else if code == ABS_Y || code == ABS_RY {
            Some(Target::Motion(Axis::Y))
        } else {
            None
        }
    } else {
        None
    }
}

/// Translates one physical event into at most one virtual event.
///
/// Keys and buttons of the table come out under their new code with the
/// value untouched. Stick samples come out as relative motion, the value
/// passed through the response curve. Everything else is dropped.
pub fn map_event(event: RawInputEvent, constants: &StickConstants) -> (out: Option<
    VirtualOutputEvent,
>)
    ensures
        out == spec_map_event(event, *constants),
        out is None <==> !translation_table().dom().contains((event.event_type, event.code)),
{
    match lookup(event.event_type, event.code) {
        Some(Target::Key(code)) => Some(VirtualOutputEvent::key(code, event.value)),
        Some(Target::Motion(axis)) => Some(
            VirtualOutputEvent::motion(axis, constants.map_axis(axis, event.value)),
        ),
        None => None,
    }
}

/// Whether some row of the table turns a physical input into the key or
/// button of this code.
pub open spec fn is_virtual_key(code: u16) -> bool {
    exists|input: (u16, u16)|
        translation_table().dom().contains(input) && #[trigger] translation_table()[input]
            == Target::Key(code)
}

/// The keys and buttons that the virtual device must offer: those that the
/// table can send, each once.
pub fn virtual_keys() -> (keys: [u16; 7])
    ensures
        forall|code: u16| keys@.contains(code) <==> is_virtual_key(code),
        keys@.no_duplicates(),
{
    let keys: [u16; 7] = [BTN_LEFT, BTN_RIGHT, BTN_MIDDLE, KEY_UP, KEY_RIGHT, KEY_DOWN, KEY_LEFT];
    proof {
        let table = translation_table();
        assert(table[(EV_KEY, BTN_TL2)] == Target::Key(keys@[0]));
        assert(table[(EV_KEY, BTN_TL)] == Target::Key(keys@[1]));
        assert(table[(EV_KEY, BTN_THUMBL)] == Target::Key(keys@[2]));
        assert(table[(EV_KEY, BTN_NORTH)] == Target::Key(keys@[3]));
        assert(table[(EV_KEY, BTN_EAST)] == Target::Key(keys@[4]));
        assert(table[(EV_KEY, BTN_SOUTH)] == Target::Key(keys@[5]));
        assert(table[(EV_KEY, BTN_WEST)] == Target::Key(keys@[6]));
        assert forall|code: u16| keys@.contains(code) implies is_virtual_key(code) by {
            let i = choose|i: int| 0 <= i < keys@.len() && keys@[i] == code;
            assert(0 <= i < 7);
        }
        assert forall|code: u16| is_virtual_key(code) implies keys@.contains(code) by {
            let input = choose|input: (u16, u16)|
                table.dom().contains(input) && #[trigger] table[input] == Target::Key(code);
            assert(keys@[0] == BTN_LEFT && keys@[1] == BTN_RIGHT && keys@[2] == BTN_MIDDLE
                && keys@[3] == KEY_UP && keys@[4] == KEY_RIGHT && keys@[5] == KEY_DOWN && keys@[6]
                == KEY_LEFT);
        }
    }
    keys
}

/// The translation depends on nothing but the event's type, code and value
/// and the constants: two events that agree in these are translated alike,
/// whenever they arrive.
pub proof fn lemma_translation_is_deterministic(
    first: RawInputEvent,
    second: RawInputEvent,
    constants: StickConstants,
)
    requires
        first.event_type == second.event_type,
        first.code == second.code,
        first.value == second.value,
    ensures
        spec_map_event(first, constants) == spec_map_event(second, constants),
{
}

/// An event whose type and code are not in the table is dropped, whatever
/// its value.
pub proof fn lemma_unlisted_is_dropped(event: RawInputEvent, constants: StickConstants)
    requires
        !translation_table().dom().contains((event.event_type, event.code)),
    ensures
        spec_map_event(event, constants) is None,
{
}

/// Only key events and absolute axis samples are in the table.
pub proof fn lemma_other_kinds_are_dropped(event: RawInputEvent, constants: StickConstants)
    requires
        event.event_type != EV_KEY,
        event.event_type != EV_ABS,
    ensures
        spec_map_event(event, constants) is None,
{
}

/// A key of the table keeps its value; what comes out is a key event.
pub proof fn lemma_keys_pass_through(event: RawInputEvent, constants: StickConstants)
    requires
        event.event_type == EV_KEY,
        translation_table().dom().contains((event.event_type, event.code)),
    ensures
        spec_map_event(event, constants) is Some,
        spec_map_event(event, constants).unwrap().event_type == EV_KEY,
        spec_map_event(event, constants).unwrap().value == event.value,
        spec_map_event(event, constants).unwrap().spec_axis() is None,
{
}

/// A stick sample of the table comes out as motion along one axis, the
/// value being what the response curve gives for that axis.
pub proof fn lemma_sticks_become_motion(event: RawInputEvent, constants: StickConstants)
    requires
        event.event_type == EV_ABS,
        translation_table().dom().contains((event.event_type, event.code)),
    ensures
        spec_map_event(event, constants) is Some,
        spec_map_event(event, constants).unwrap().spec_axis() is Some,
        spec_map_event(event, constants).unwrap().value == constants.spec_map_axis(
            spec_map_event(event, constants).unwrap().spec_axis().unwrap(),
            event.value,
        ),
{
    let axis = if event.code == ABS_X || event.code == ABS_RX {
        Axis::X
    } else {
        Axis::Y
    };
    crate::axis::lemma_map_axis_fits(constants, axis, event.value);
}

/// Whatever goes out is a key or button that the virtual device offers, or
/// motion along X or Y.
pub proof fn lemma_output_is_offered(event: RawInputEvent, constants: StickConstants)
    requires
        spec_map_event(event, constants) is Some,
    ensures
        ({
            let out = spec_map_event(event, constants).unwrap();
            ||| out.event_type == EV_KEY && is_virtual_key(out.code)
            ||| out.spec_axis() is Some
        }),
{
}

} // verus!
