//! The state machine that keeps the pointer moving while the stick is held.
//!
//! Each axis has a timer. Every motion event that goes out for an axis,
//! whether it answers a fresh sample or repeats the last one, sets that
//! axis's timer to the repeat timeout from now. When a timer runs out the
//! last motion of its axis goes out once more. The caller owns the clock and
//! the waiting: it tells the scheduler what woke it and at what time, sends
//! what the scheduler hands back, and sleeps until the next deadline.
//!
//! Time is counted in milliseconds from an origin of the caller's choice.

use vstd::prelude::*;
use crate::axis::{Axis, StickConstants};
use crate::event::{RawInputEvent, VirtualOutputEvent};
use crate::translate::{map_event, spec_map_event};

verus! {

/// What the scheduler remembers of one axis.
#[derive(Clone, Copy, Debug, PartialEq, Eq)]
pub struct AxisRepeatState {
    /// The value of the last motion event sent for the axis.
    pub last_emitted_value: i32,
    /// When that motion is due to be repeated; `None` while the timer is
    /// not armed.
    pub deadline: Option<u64>,
}

/// What ended a wait.
#[derive(Clone, Copy, Debug, PartialEq, Eq)]
pub enum Wake {
    /// The device delivered an event.
    Input(RawInputEvent),
    /// The timer of an axis ran out.
    Timer(Axis),
}

/// The repeat state of both axes, and the timeout they share.
#[derive(Clone, Copy, Debug, PartialEq, Eq)]
pub struct Scheduler {
    pub x: AxisRepeatState,
    pub y: AxisRepeatState,
    pub repeat_timeout: u64,
}

/// The deadline of a timer armed at `now`: `now + timeout`, or none where
/// that lies beyond the end of the clock.
pub open spec fn rearmed(now: u64, timeout: u64) -> Option<u64> {
    if now + timeout <= u64::MAX {
        Some((now + timeout) as u64)
    } else {
        None
    }
}

impl Scheduler {
    /// The state before anything has happened: nothing sent, no timer
    /// armed.
    pub open spec fn spec_new(repeat_timeout: u64) -> Scheduler {
        Scheduler {
            x: AxisRepeatState { last_emitted_value: 0, deadline: None },
            y: AxisRepeatState { last_emitted_value: 0, deadline: None },
            repeat_timeout,
        }
    }

    /// The state of one axis.
    pub open spec fn spec_state(self, axis: Axis) -> AxisRepeatState {
        match axis {
            Axis::X => self.x,
            Axis::Y => self.y,
        }
    }

    /// The scheduler after a motion of `value` went out for `axis` at
    /// `now`: the value is remembered and the timer armed anew; the other
    /// axis is as it was.
    pub open spec fn emitted(self, axis: Axis, value: i32, now: u64) -> Scheduler {
        let state = AxisRepeatState {
            last_emitted_value: value,
            deadline: rearmed(now, self.repeat_timeout),
        };
        match axis {
            Axis::X => Scheduler { x: state, ..self },
            Axis::Y => Scheduler { y: state, ..self },
        }
    }

    /// The scheduler after `out` was handed to the caller at `now`.
    pub open spec fn after_output(self, out: Option<VirtualOutputEvent>, now: u64) -> Scheduler {
        match out {
            Some(event) => match event.spec_axis() {
                Some(axis) => self.emitted(axis, event.value, now),
                None => self,
            },
            None => self,
        }
    }

    /// The scheduler after a physical event was handled at `now`.
    pub open spec fn after_input(
        self,
        event: RawInputEvent,
        constants: StickConstants,
        now: u64,
    ) -> Scheduler {
        self.after_output(spec_map_event(event, constants), now)
    }

    /// What goes out when the timer of `axis` runs out.
    pub open spec fn repeat_of(self, axis: Axis) -> VirtualOutputEvent {
        VirtualOutputEvent::spec_motion(axis, self.spec_state(axis).last_emitted_value)
    }

    /// The scheduler after the timer of `axis` was handled at `now`.
    pub open spec fn after_timer(self, axis: Axis, now: u64) -> Scheduler {
        self.emitted(axis, self.spec_state(axis).last_emitted_value, now)
    }

    /// What goes out for a wake-up.
    pub open spec fn output_of(self, wake: Wake, constants: StickConstants) -> Option<
        VirtualOutputEvent,
    > {
        match wake {
            Wake::Input(event) => spec_map_event(event, constants),
            Wake::Timer(axis) => Some(self.repeat_of(axis)),
        }
    }

    /// The scheduler after a wake-up was handled at `now`.
    pub open spec fn after_wake(self, wake: Wake, constants: StickConstants, now: u64) -> Scheduler {
        match wake {
            Wake::Input(event) => self.after_input(event, constants, now),
            Wake::Timer(axis) => self.after_timer(axis, now),
        }
    }

    /// The armed timer that runs out first, with its deadline. Where both
    /// run out together, X goes first.
    pub open spec fn spec_next_timer(self) -> Option<(Axis, u64)> {
        match (self.x.deadline, self.y.deadline) {
            (Some(x), Some(y)) => if x <= y {
                Some((Axis::X, x))
            } else {
                Some((Axis::Y, y))
            },
            (Some(x), None) => Some((Axis::X, x)),
            (None, Some(y)) => Some((Axis::Y, y)),
            (None, None) => None,
        }
    }

    /// The axis whose timer has run out at `now` and is to be handled
    /// next, if any has.
    pub open spec fn spec_due(self, now: u64) -> Option<Axis> {
        match self.spec_next_timer() {
            Some((axis, deadline)) => if deadline <= now {
                Some(axis)
            } else {
                None
            },
            None => None,
        }
    }

    /// A scheduler with nothing sent and no timer armed.
    pub fn new(repeat_timeout: u64) -> (scheduler: Scheduler)
        ensures
            scheduler == Self::spec_new(repeat_timeout),
            scheduler.spec_next_timer() is None,
    {
        Scheduler {
            x: AxisRepeatState { last_emitted_value: 0, deadline: None },
            y: AxisRepeatState { last_emitted_value: 0, deadline: None },
            repeat_timeout,
        }
    }

    /// The state of one axis.
    pub fn state(&self, axis: Axis) -> (state: AxisRepeatState)
        ensures
            state == self.spec_state(axis),
    {
        match axis {
            Axis::X => self.x,
            Axis::Y => self.y,
        }
    }

    /// Records that a motion of `value` goes out for `axis` at `now`.
    fn emit(&mut self, axis: Axis, value: i32, now: u64)
        ensures
            *final(self) == old(self).emitted(axis, value, now),
    {
        let state = AxisRepeatState {
            last_emitted_value: value,
            deadline: now.checked_add(self.repeat_timeout),
        };
        match axis {
            Axis::X => {
                self.x = state;
            },
            Axis::Y => {
                self.y = state;
            },
        }
    }

    /// Handles a physical event that arrived at `now`, and returns what is
    /// to be sent for it.
    ///
    /// The event is translated. A motion is remembered as the last of its
    /// axis, and the timer of that axis is set to the repeat timeout from
    /// `now`. Keys go out without a trace in the state, and an event that
    /// translates to nothing leaves nothing behind.
    pub fn handle_input(
        &mut self,
        event: RawInputEvent,
        constants: &StickConstants,
        now: u64,
    ) -> (out: Option<VirtualOutputEvent>)
        ensures
            out == spec_map_event(event, *constants),
            *final(self) == old(self).after_input(event, *constants, now),
            out is None ==> *final(self) == *old(self),
    {
        let out = map_event(event, constants);
        if let Some(translated) = out {
            if let Some(axis) = translated.axis() {
                self.emit(axis, translated.value, now);
            }
        }
        out
    }

    /// Handles the timer of `axis` running out at `now`, and returns the
    /// motion to be sent: the last one of that axis, once more.
    pub fn handle_timer(&mut self, axis: Axis, now: u64) -> (out: VirtualOutputEvent)
        ensures
            out == old(self).repeat_of(axis),
            *final(self) == old(self).after_timer(axis, now),
    {
        let value: i32 = self.state(axis).last_emitted_value;
        self.emit(axis, value, now);
        VirtualOutputEvent::motion(axis, value)
    }

    /// Handles whatever ended the wait at `now`, and returns what is to be
    /// sent for it.
    pub fn step(&mut self, wake: Wake, constants: &StickConstants, now: u64) -> (out: Option<
        VirtualOutputEvent,
    >)
        ensures
            out == old(self).output_of(wake, *constants),
            *final(self) == old(self).after_wake(wake, *constants, now),
            *final(self) == old(self).after_output(out, now),
    {
        match wake {
            Wake::Input(event) => self.handle_input(event, constants, now),
            Wake::Timer(axis) => Some(self.handle_timer(axis, now)),
        }
    }

    /// The armed timer that runs out first, with its deadline.
    pub fn next_timer(&self) -> (next: Option<(Axis, u64)>)
        ensures
            next == self.spec_next_timer(),
    {
        match (self.x.deadline, self.y.deadline) {
            (Some(x), Some(y)) => if x <= y {
                Some((Axis::X, x))
            } else {
                Some((Axis::Y, y))
            },
            (Some(x), None) => Some((Axis::X, x)),
            (None, Some(y)) => Some((Axis::Y, y)),
            (None, None) => None,
        }
    }

    /// The axis whose timer has run out at `now`, if any has.
    pub fn due(&self, now: u64) -> (axis: Option<Axis>)
        ensures
            axis == self.spec_due(now),
    {
        match self.next_timer() {
            Some((axis, deadline)) => if deadline <= now {
                Some(axis)
            } else {
                None
            },
            None => None,
        }
    }
}

impl Scheduler {
    /// The scheduler after the timer of `axis` ran out `count` times in a
    /// row, each time handled at its deadline, with nothing else in
    /// between. A timer that is not armed does not run out.
    pub open spec fn after_repeats(self, axis: Axis, count: nat) -> Scheduler
        decreases count,
    {
        if count == 0 {
            self
        } else {
            let before = self.after_repeats(axis, (count - 1) as nat);
            match before.spec_state(axis).deadline {
                Some(deadline) => before.after_timer(axis, deadline),
                None => before,
            }
        }
    }
}

/// Whatever ended the wait: when a motion goes out for an axis, the
/// scheduler remembers its value for that axis and sets that axis's timer
/// to the repeat timeout from now.
pub proof fn lemma_emission_rearms(
    scheduler: Scheduler,
    wake: Wake,
    constants: StickConstants,
    now: u64,
    axis: Axis,
)
    requires
        scheduler.output_of(wake, constants) is Some,
        scheduler.output_of(wake, constants).unwrap().spec_axis() == Some(axis),
    ensures
        scheduler.after_wake(wake, constants, now).spec_state(axis) == (AxisRepeatState {
            last_emitted_value: scheduler.output_of(wake, constants).unwrap().value,
            deadline: rearmed(now, scheduler.repeat_timeout),
        }),
{
}

/// An axis for which nothing goes out is left as it was, value and timer,
/// and the repeat timeout never changes.
pub proof fn lemma_silent_axis_is_untouched(
    scheduler: Scheduler,
    wake: Wake,
    constants: StickConstants,
    now: u64,
    axis: Axis,
)
    requires
        scheduler.output_of(wake, constants) is None || scheduler.output_of(
            wake,
            constants,
        ).unwrap().spec_axis() != Some(axis),
    ensures
        scheduler.after_wake(wake, constants, now).spec_state(axis) == scheduler.spec_state(axis),
        scheduler.after_wake(wake, constants, now).repeat_timeout == scheduler.repeat_timeout,
{
}

/// An event that translates to nothing, or to a key, changes nothing in
/// the scheduler.
pub proof fn lemma_only_motion_changes_state(
    scheduler: Scheduler,
    event: RawInputEvent,
    constants: StickConstants,
    now: u64,
)
    requires
        spec_map_event(event, constants) is None || spec_map_event(
            event,
            constants,
        ).unwrap().spec_axis() is None,
    ensures
        scheduler.after_input(event, constants, now) == scheduler,
{
}

/// With a positive timeout a timer that was just armed is not yet due: the
/// repeat of a motion never goes out at the instant of the motion itself.
pub proof fn lemma_rearmed_is_later(scheduler: Scheduler, axis: Axis, value: i32, now: u64)
    requires
        scheduler.repeat_timeout > 0,
    ensures
        scheduler.emitted(axis, value, now).spec_state(axis).deadline matches Some(deadline)
            ==> deadline > now,
        scheduler.emitted(axis, value, now).spec_due(now) != Some(axis),
{
}

/// The timer that is handled next is armed, and no armed timer runs out
/// before it.
pub proof fn lemma_next_timer_is_earliest(scheduler: Scheduler, axis: Axis)
    ensures
        scheduler.spec_next_timer() is None <==> scheduler.x.deadline is None
            && scheduler.y.deadline is None,
        scheduler.spec_next_timer() matches Some((next, deadline)) ==> {
            &&& scheduler.spec_state(next).deadline == Some(deadline)
            &&& scheduler.spec_state(axis).deadline matches Some(other) ==> deadline <= other
        },
{
}

/// Left alone, an armed timer repeats the last motion of its axis at
/// multiples of the repeat timeout after its deadline: after `count`
/// repeats the value is what it was, the next deadline lies `count`
/// timeouts after the first, and the other axis has not changed.
pub proof fn lemma_repeats_keep_cadence(
    scheduler: Scheduler,
    axis: Axis,
    first: u64,
    count: nat,
)
    requires
        scheduler.spec_state(axis).deadline == Some(first),
        first + count * scheduler.repeat_timeout <= u64::MAX,
    ensures
        scheduler.after_repeats(axis, count).spec_state(axis) == (AxisRepeatState {
            last_emitted_value: scheduler.spec_state(axis).last_emitted_value,
            deadline: Some((first + count * scheduler.repeat_timeout) as u64),
        }),
        scheduler.after_repeats(axis, count).repeat_of(axis) == scheduler.repeat_of(axis),
        scheduler.after_repeats(axis, count).repeat_timeout == scheduler.repeat_timeout,
        axis == Axis::X ==> scheduler.after_repeats(axis, count).y == scheduler.y,
        axis == Axis::Y ==> scheduler.after_repeats(axis, count).x == scheduler.x,
    decreases count,
{
    let timeout = scheduler.repeat_timeout as int;
    if count > 0 {
        let fewer = (count - 1) as nat;
        assert(fewer * timeout <= count * timeout) by (nonlinear_arith)
            requires
                fewer <= count,
                timeout >= 0,
        ;
        assert(count * timeout == fewer * timeout + timeout) by (nonlinear_arith)
            requires
                fewer == count - 1,
        ;
        lemma_repeats_keep_cadence(scheduler, axis, first, fewer);
    } else {
        assert(count * timeout == 0) by (nonlinear_arith)
            requires
                count == 0,
        ;
    }
}

} // verus!
