//! One run at a time: the guard the caller's event loop keeps between the
//! start action and the run's end, so that a second start request while a
//! run is in flight is rejected instead of spawning two interleaved runs.

use vstd::prelude::*;
use crate::coordinator::{initial_state, Coordinator};
use crate::params::{ConfigError, RunParameters};

verus! {

/// Whether a capture run is currently in flight.
#[derive(Clone, Copy, Debug, PartialEq, Eq, Structural)]
pub enum RunLifecycle {
    Idle,
    Running,
}

/// Why `try_start` declined to start a run.
#[derive(Clone, Copy, Debug, PartialEq, Eq, Structural)]
pub enum StartError {
    /// A run is already in flight; concurrent runs are rejected outright.
    AlreadyRunning,
    /// The numbers given for the run are invalid.
    Config(ConfigError),
}

/// The start/stop guard. It lives with the caller's event loop; the
/// coordinator it hands out runs elsewhere, and the caller calls
/// [`Controller::acknowledge_finished`] when the runner has seen the run's
/// `Finish`.
pub struct Controller {
    pub lifecycle: RunLifecycle,
}

impl Controller {
    /// A fresh controller with no run in flight.
    pub fn new() -> (c: Controller)
        ensures
            c.lifecycle is Idle,
    {
        Controller { lifecycle: RunLifecycle::Idle }
    }

    /// Start a run: succeeds exactly when no run is in flight and the
    /// numbers are valid, and then hands out the run's coordinator in its
    /// initial state. The caller must reset the shared cancellation flag
    /// before driving the coordinator.
    pub fn try_start(
        &mut self,
        steps_per_revolution: u32,
        revolutions: u32,
        shot_delay_millis: u64,
        step_delay_millis: u32,
    ) -> (r: Result<Coordinator, StartError>)
        ensures
            (match r {
                Ok(coord) => {
                    &&& old(self).lifecycle is Idle
                    &&& final(self).lifecycle is Running
                    &&& coord == initial_state(RunParameters {
                        steps_per_revolution,
                        revolutions,
                        shot_delay_millis,
                        step_delay_millis,
                    })
                    &&& coord.wf()
                }
                Err(StartError::AlreadyRunning) => {
                    &&& old(self).lifecycle is Running
                    &&& *final(self) == *old(self)
                }
                Err(StartError::Config(e)) => {
                    &&& old(self).lifecycle is Idle
                    &&& *final(self) == *old(self)
                    &&& (match e {
                        ConfigError::ZeroStepsPerRevolution => steps_per_revolution == 0,
                        ConfigError::TooManyShots => steps_per_revolution > 0
                            && steps_per_revolution as int * revolutions as int > u32::MAX as int,
                    })
                }
            }),
    {
        match self.lifecycle {
            RunLifecycle::Running => Err(StartError::AlreadyRunning),
            RunLifecycle::Idle => {
                match RunParameters::validate(
                    steps_per_revolution,
                    revolutions,
                    shot_delay_millis,
                    step_delay_millis,
                ) {
                    Ok(params) => {
                        self.lifecycle = RunLifecycle::Running;
                        Ok(Coordinator::start_run(params))
                    }
                    Err(e) => Err(StartError::Config(e)),
                }
            }
        }
    }

    /// The caller reports that the run it last started has ended: the runner
    /// saw the coordinator's `Finish`. A new run may start afterwards.
    pub fn acknowledge_finished(&mut self)
        ensures
            final(self).lifecycle is Idle,
    {
        self.lifecycle = RunLifecycle::Idle;
    }
}

} // verus!
