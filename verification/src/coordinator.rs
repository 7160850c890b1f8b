//! The capture run as a verified state machine.
//!
//! One `Coordinator` value is one run. An unverified runner drives it by
//! calling [`Coordinator::next`] with the current reading of the shared
//! cancellation flag; the coordinator answers with the one [`Action`] the
//! runner must perform (trigger the shutter, move the motor and sleep, wait,
//! report progress, or announce the end), until it answers `None`. All
//! sequencing, pacing arithmetic, progress values and cancellation handling
//! are decided here; the runner only executes effects.

use vstd::prelude::*;
use crate::motor::{half_step_pattern, pattern_for, CoilPattern, PATTERN_LEN};
use crate::params::RunParameters;
use crate::timing::{
    lemma_boundary_in_range, lemma_boundary_monotone, microstep_boundary,
    microstep_boundary_spec, microstep_end, residual_wait, residual_wait_spec,
};

verus! {

/// Where the coordinator stands inside one capture run.
#[derive(Clone, Copy, Debug, PartialEq, Eq, Structural)]
pub enum Stage {
    /// About to begin a shot, or to end the run. The cancellation flag is
    /// heeded exactly here: once per shot, never mid-movement or mid-sleep.
    ShotStart,
    /// Moving the motor through the current shot's microsteps.
    Stepping,
    /// The residual wait has been issued; the shot's progress report is due.
    Report,
    /// The run has ended and its end has been announced; nothing is left.
    Done,
}

/// One effect the unverified runner must perform on the coordinator's behalf.
#[derive(Clone, Copy, Debug, PartialEq, Eq, Structural)]
pub enum Action {
    /// Send the remote shutter command to the connected device, best effort:
    /// a transport failure is ignored and the run goes on.
    TriggerShutter,
    /// Put the motor coils in the given state, then sleep `settle_millis`
    /// milliseconds so the motor settles. A failed line write is ignored;
    /// the sleep still happens so the cadence is kept.
    MotorStep { coils: CoilPattern, settle_millis: u64 },
    /// Sleep `millis` milliseconds: the part of the shot delay the motor
    /// settling did not already use up.
    ResidualWait { millis: u64 },
    /// Tell the observer that `shots_done` of `total_shots` shots are done:
    /// a fraction in `[0, 1)`. Delivery is best effort and must not block.
    ReportProgress { shots_done: u32, total_shots: u32 },
    /// Tell the observer that the run has ended, completed or cancelled, and
    /// reset its displayed progress to zero. Never emitted twice for one run.
    Finish,
}

/// One capture run. Created by [`Coordinator::start_run`], driven by
/// [`Coordinator::next`], finished when `next` returns `None`.
#[derive(Clone, Copy, Debug, PartialEq, Eq, Structural)]
pub struct Coordinator {
    /// The parameters the run was started with, fixed for its duration.
    pub params: RunParameters,
    /// The zero-based index of the shot in progress.
    pub shot: u32,
    /// The next microstep to move through, meaningful while `Stepping`.
    pub microstep: u64,
    /// Where the run stands.
    pub stage: Stage,
}

/// The state a run starts in.
pub open spec fn initial_state(params: RunParameters) -> Coordinator {
    Coordinator { params, shot: 0, microstep: 0, stage: Stage::ShotStart }
}

impl Coordinator {
    /// Total number of shots of this run.
    pub open spec fn total(self) -> int {
        self.params.total_shots_spec()
    }

    /// The microstep boundary of a shot, under this run's parameters.
    pub open spec fn boundary(self, shot: int) -> int {
        microstep_boundary_spec(self.params.steps_per_revolution as int, shot)
    }

    /// The coordinator's invariant: the shot counter stays within the run's
    /// total, and while the motor moves, the position stays within the
    /// current shot's microstep range.
    pub open spec fn wf(self) -> bool {
        &&& self.params.valid()
        &&& self.shot as int <= self.total()
        &&& (self.stage is Stepping ==> {
            &&& (self.shot as int) < self.total()
            &&& self.boundary(self.shot as int) <= self.microstep as int
                <= self.boundary(self.shot as int + 1)
        })
        &&& (self.stage is Report ==> (self.shot as int) < self.total())
    }
}

/// The coordinator after one call of `next` on `c` that read `cancel` from
/// the cancellation flag.
pub open spec fn step_state(c: Coordinator, cancel: bool) -> Coordinator {
    match c.stage {
        Stage::Done => c,
        Stage::ShotStart => {
            if cancel || c.shot as int == c.total() {
                Coordinator { stage: Stage::Done, ..c }
            } else {
                Coordinator {
                    stage: Stage::Stepping,
                    microstep: c.boundary(c.shot as int) as u64,
                    ..c
                }
            }
        }
        Stage::Stepping => {
            if (c.microstep as int) < c.boundary(c.shot as int + 1) {
                Coordinator { microstep: (c.microstep + 1) as u64, ..c }
            } else if residual_wait_spec(c.params, c.shot as int) > 0 {
                Coordinator { stage: Stage::Report, ..c }
            } else {
                Coordinator { stage: Stage::ShotStart, shot: (c.shot + 1) as u32, ..c }
            }
        }
        Stage::Report => Coordinator { stage: Stage::ShotStart, shot: (c.shot + 1) as u32, ..c },
    }
}

/// The action that same call of `next` hands to the runner.
pub open spec fn step_action(c: Coordinator, cancel: bool) -> Option<Action> {
    match c.stage {
        Stage::Done => None,
        Stage::ShotStart => {
            if cancel || c.shot as int == c.total() {
                Some(Action::Finish)
            } else {
                Some(Action::TriggerShutter)
            }
        }
        Stage::Stepping => {
            if (c.microstep as int) < c.boundary(c.shot as int + 1) {
                Some(Action::MotorStep {
                    coils: half_step_pattern((c.microstep % PATTERN_LEN) as int),
                    settle_millis: c.params.step_delay_millis as u64,
                })
            } else if residual_wait_spec(c.params, c.shot as int) > 0 {
                Some(Action::ResidualWait {
                    millis: residual_wait_spec(c.params, c.shot as int) as u64,
                })
            } else {
                Some(Action::ReportProgress { shots_done: c.shot, total_shots: c.total() as u32 })
            }
        }
        Stage::Report => Some(Action::ReportProgress {
            shots_done: c.shot,
            total_shots: c.total() as u32,
        }),
    }
}

/// One step of the run preserves the invariant and never touches the
/// parameters.
pub proof fn lemma_step_preserves_wf(c: Coordinator, cancel: bool)
    requires
        c.wf(),
    ensures
        step_state(c, cancel).wf(),
        step_state(c, cancel).params == c.params,
{
    let steps = c.params.steps_per_revolution as int;
    if c.stage is ShotStart && !(cancel || c.shot as int == c.total()) {
        lemma_boundary_in_range(steps, c.shot as int);
        lemma_boundary_monotone(steps, c.shot as int, c.shot as int + 1);
    }
    if c.stage is Stepping {
        lemma_boundary_in_range(steps, c.shot as int + 1);
    }
}

impl Coordinator {
    /// Begin a run with the given (validated) parameters. The caller must
    /// have reset the shared cancellation flag to false before this, so that
    /// a stale stop request stays visible to it rather than silently ending
    /// the new run.
    pub fn start_run(params: RunParameters) -> (c: Coordinator)
        requires
            params.valid(),
        ensures
            c == initial_state(params),
            c.wf(),
    {
        Coordinator { params, shot: 0, microstep: 0, stage: Stage::ShotStart }
    }

    /// Advance the run by one action. `cancel` is the runner's current
    /// reading of the shared cancellation flag; it is heeded only at a shot
    /// start. Returns the action the runner must now perform, or `None` once
    /// the run has ended and its end has been announced.
    pub fn next(&mut self, cancel: bool) -> (action: Option<Action>)
        requires
            old(self).wf(),
        ensures
            *final(self) == step_state(*old(self), cancel),
            action == step_action(*old(self), cancel),
            final(self).wf(),
    {
        proof {
            lemma_step_preserves_wf(*self, cancel);
        }
        match self.stage {
            Stage::Done => None,
            Stage::ShotStart => {
                let total = self.params.total_shots();
                if cancel || self.shot == total {
                    self.stage = Stage::Done;
                    Some(Action::Finish)
                } else {
                    self.microstep = microstep_boundary(self.params.steps_per_revolution, self.shot);
                    self.stage = Stage::Stepping;
                    Some(Action::TriggerShutter)
                }
            }
            Stage::Stepping => {
                let end = microstep_end(self.params.steps_per_revolution, self.shot);
                if self.microstep < end {
                    let coils = pattern_for(self.microstep);
                    let settle = self.params.step_delay_millis as u64;
                    self.microstep = self.microstep + 1;
                    Some(Action::MotorStep { coils, settle_millis: settle })
                } else {
                    let r = residual_wait(&self.params, self.shot);
                    if r > 0 {
                        self.stage = Stage::Report;
                        Some(Action::ResidualWait { millis: r })
                    } else {
                        let a = Action::ReportProgress {
                            shots_done: self.shot,
                            total_shots: self.params.total_shots(),
                        };
                        self.shot = self.shot + 1;
                        self.stage = Stage::ShotStart;
                        Some(a)
                    }
                }
            }
            Stage::Report => {
                let a = Action::ReportProgress {
                    shots_done: self.shot,
                    total_shots: self.params.total_shots(),
                };
                self.shot = self.shot + 1;
                self.stage = Stage::ShotStart;
                Some(a)
            }
        }
    }
}

} // verus!
