//! The settings of the driver and what is derived from them.

use vstd::prelude::*;
use crate::axis::{
    pow5, Factor, StickConstants, FACTOR_DENOMINATOR, FULL_DEFLECTION, SPEED_UNIT,
};

verus! {

/// How far the pointer moves per repeat when the stick is held all the way
/// to one side, in millionths of a step.
#[derive(Clone, Copy, Debug, PartialEq, Eq, Structural)]
pub struct Speed {
    pub micros: u64,
}

/// The settings.
#[derive(Clone, Debug, PartialEq, Eq)]
pub struct Args {
    /// The path of the device to read from; without one the first fitting
    /// device is taken.
    pub device: Option<String>,
    /// The pointer speed at full deflection.
    pub speed: Speed,
    /// Milliseconds after which the last motion of an axis is repeated.
    pub repeat_timeout: u64,
    /// Width of the dead zone, in raw axis units.
    pub drift_threshold: u32,
    /// Correction of the resting position of the X axis.
    pub adjust_x: i32,
    /// Correction of the resting position of the Y axis.
    pub adjust_y: i32,
}

impl Speed {
    /// A speed of a whole number of steps.
    pub fn from_steps(steps: u32) -> (speed: Speed)
        ensures
            speed.micros == steps * SPEED_UNIT,
    {
        assert(steps * SPEED_UNIT <= 0xffff_ffff * 1_000_000) by (nonlinear_arith)
            requires
                steps <= 0xffff_ffff,
                SPEED_UNIT == 1_000_000,
        ;
        Speed { micros: steps as u64 * SPEED_UNIT }
    }
}

impl Args {
    /// The settings that hold where nothing else is asked for.
    pub open spec fn spec_default() -> Args {
        Args {
            device: None,
            speed: Speed { micros: 20_000_000 },
            repeat_timeout: 16,
            drift_threshold: 2000,
            adjust_x: 0,
            adjust_y: 0,
        }
    }

    /// The constants of the response curve under these settings.
    pub open spec fn spec_stick_constants(&self) -> StickConstants {
        StickConstants {
            factor: Factor { numerator: self.speed.micros },
            drift_threshold: self.drift_threshold,
            adjustments: (self.adjust_x, self.adjust_y),
        }
    }

    /// The constants of the response curve under these settings. The
    /// factor is the speed divided by the fifth power of the full
    /// deflection.
    pub fn stick_constants(&self) -> (constants: StickConstants)
        ensures
            constants == self.spec_stick_constants(),
            constants.factor.numerator * (SPEED_UNIT * pow5(FULL_DEFLECTION as int))
                == self.speed.micros * FACTOR_DENOMINATOR,
    {
        proof {
            lemma_factor_denominator();
        }
        StickConstants {
            factor: Factor { numerator: self.speed.micros },
            drift_threshold: self.drift_threshold,
            adjustments: (self.adjust_x, self.adjust_y),
        }
    }
}

impl Default for Args {
    fn default() -> (args: Args)
        ensures
            args == Args::spec_default(),
    {
        Args {
            device: None,
            speed: Speed { micros: 20_000_000 },
            repeat_timeout: 16,
            drift_threshold: 2000,
            adjust_x: 0,
            adjust_y: 0,
        }
    }
}

/// The denominator of a factor is one speed unit times the fifth power of
/// the full deflection.
pub proof fn lemma_factor_denominator()
    ensures
        FACTOR_DENOMINATOR == SPEED_UNIT * pow5(FULL_DEFLECTION as int),
{
    assert(30_000int * 30_000 * 30_000 * 30_000 * 30_000
        == 24_300_000_000_000_000_000_000int) by (nonlinear_arith);
}

} // verus!
