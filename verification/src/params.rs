//! Run parameters: how many shots a capture run takes and how it is paced.

use vstd::prelude::*;

verus! {

/// Native resolution of the motor: microsteps per full revolution of the table.
pub const FULL_ROTATION_UNITS: u64 = 4096;

/// Everything a capture run needs to know, fixed at run start.
///
/// `steps_per_revolution` is the number of shots taken per revolution of the
/// table; `revolutions` how many revolutions the run makes. Delays are plain
/// durations: a caller with a fractional or negative delay clamps it to a
/// whole number of milliseconds before building the parameters.
#[derive(Clone, Copy, Debug, PartialEq, Eq, Structural)]
pub struct RunParameters {
    pub steps_per_revolution: u32,
    pub revolutions: u32,
    /// Minimum time between two shutter triggers, in milliseconds.
    pub shot_delay_millis: u64,
    /// Settling time after each microstep of the motor, in milliseconds.
    pub step_delay_millis: u32,
}

/// Why a run could not be started with the given numbers.
#[derive(Clone, Copy, Debug, PartialEq, Eq, Structural)]
pub enum ConfigError {
    /// `steps_per_revolution` was zero: the step size is undefined.
    ZeroStepsPerRevolution,
    /// `steps_per_revolution * revolutions` does not fit in a `u32`.
    TooManyShots,
}

impl RunParameters {
    /// The parameter invariant: a positive step count, and a total shot
    /// count that fits the counter driving the run loop.
    pub open spec fn valid(self) -> bool {
        &&& self.steps_per_revolution > 0
        &&& self.total_shots_spec() <= u32::MAX as int
    }

    /// Total number of shutter triggers in a full run.
    pub open spec fn total_shots_spec(self) -> int {
        self.steps_per_revolution as int * self.revolutions as int
    }

    /// Total number of shutter triggers in a full run.
    pub fn total_shots(&self) -> (n: u32)
        requires
            self.valid(),
        ensures
            n as int == self.total_shots_spec(),
    {
        self.steps_per_revolution * self.revolutions
    }

    /// Checks the numbers coming from the caller's configuration surface and
    /// builds the parameters, rejecting exactly the invalid combinations.
    pub fn validate(
        steps_per_revolution: u32,
        revolutions: u32,
        shot_delay_millis: u64,
        step_delay_millis: u32,
    ) -> (r: Result<RunParameters, ConfigError>)
        ensures
            (match r {
                Ok(p) => {
                    &&& p == (RunParameters {
                        steps_per_revolution,
                        revolutions,
                        shot_delay_millis,
                        step_delay_millis,
                    })
                    &&& p.valid()
                }
                Err(ConfigError::ZeroStepsPerRevolution) => steps_per_revolution == 0,
                Err(ConfigError::TooManyShots) => {
                    &&& steps_per_revolution > 0
                    &&& steps_per_revolution as int * revolutions as int > u32::MAX as int
                }
            }),
    {
        if steps_per_revolution == 0 {
            return Err(ConfigError::ZeroStepsPerRevolution);
        }
        proof {
            vstd::arithmetic::mul::lemma_mul_upper_bound(
                steps_per_revolution as int,
                u32::MAX as int,
                revolutions as int,
                u32::MAX as int,
            );
        }
        let wide: u64 = (steps_per_revolution as u64) * (revolutions as u64);
        if wide > u32::MAX as u64 {
            return Err(ConfigError::TooManyShots);
        }
        Ok(RunParameters { steps_per_revolution, revolutions, shot_delay_millis, step_delay_millis })
    }
}

} // verus!
