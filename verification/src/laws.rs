//! Properties of whole runs.
//!
//! A run is the sequence of `next` calls the runner makes on one
//! [`Coordinator`]; `cancels[n]` is the reading of the cancellation flag the
//! runner passes to the `n`-th call. [`state_at`] and [`action_at`] describe
//! that run, and the lemmas here state what holds along it: the shot counter
//! is bounded by the total, progress strictly increases and stays in
//! `[0, 1)`, the run's end is announced exactly once, and a cancellation is
//! honored with at most the shot in progress as lag.

use vstd::prelude::*;
use crate::coordinator::{step_action, step_state, Action, Coordinator, Stage};
use crate::timing::residual_wait_spec;

verus! {

/// The coordinator before the `n`-th call of `next`, for a run that starts
/// at `c` and reads `cancels[t]` from the cancellation flag at call `t`.
pub open spec fn state_at(c: Coordinator, cancels: Seq<bool>, n: int) -> Coordinator
    decreases n,
{
    if n <= 0 {
        c
    } else {
        step_state(state_at(c, cancels, n - 1), cancels[n - 1])
    }
}

/// The action the `n`-th call of `next` hands to the runner.
pub open spec fn action_at(c: Coordinator, cancels: Seq<bool>, n: int) -> Option<Action> {
    step_action(state_at(c, cancels, n), cancels[n])
}

/// Every state of a run is well-formed and runs under the parameters the
/// run started with.
pub proof fn lemma_trace_wf(c: Coordinator, cancels: Seq<bool>, n: int)
    requires
        c.wf(),
        0 <= n,
    ensures
        state_at(c, cancels, n).wf(),
        state_at(c, cancels, n).params == c.params,
    decreases n,
{
    if n > 0 {
        lemma_trace_wf(c, cancels, n - 1);
        crate::coordinator::lemma_step_preserves_wf(state_at(c, cancels, n - 1), cancels[n - 1]);
    }
}

/// One step never moves the shot counter backwards.
pub proof fn lemma_step_shot_monotone(c: Coordinator, cancel: bool)
    requires
        c.wf(),
    ensures
        c.shot <= step_state(c, cancel).shot,
{
}

/// A run makes at most `total_shots` iterations: along any schedule of
/// cancellation-flag readings, the shot counter never decreases and never
/// exceeds `steps_per_revolution * revolutions`.
pub proof fn lemma_run_bounded(c: Coordinator, cancels: Seq<bool>, m: int, n: int)
    requires
        c.wf(),
        0 <= m <= n,
    ensures
        state_at(c, cancels, m).shot <= state_at(c, cancels, n).shot,
        state_at(c, cancels, n).shot as int <= c.params.total_shots_spec(),
    decreases n - m,
{
    lemma_trace_wf(c, cancels, n);
    if m < n {
        lemma_run_bounded(c, cancels, m, n - 1);
        lemma_trace_wf(c, cancels, n - 1);
        lemma_step_shot_monotone(state_at(c, cancels, n - 1), cancels[n - 1]);
    }
}

/// What one progress report says: it carries the zero-based index of the
/// shot just finished over the run's total — a fraction in `[0, 1)` — and
/// the shot counter moves past that shot immediately after, so no shot is
/// reported twice.
pub proof fn lemma_report_exact(c: Coordinator, cancel: bool)
    requires
        c.wf(),
    ensures
        (match step_action(c, cancel) {
            Some(Action::ReportProgress { shots_done, total_shots }) => {
                &&& shots_done == c.shot
                &&& total_shots as int == c.params.total_shots_spec()
                &&& shots_done < total_shots
                &&& step_state(c, cancel).shot == c.shot + 1
            }
            _ => true,
        }),
{
}

/// Progress strictly increases: of two progress reports of one run, the
/// later reports the larger shot count over the same total, so the fraction
/// shown to the observer grows until the run ends.
pub proof fn lemma_progress_strictly_increasing(
    c: Coordinator,
    cancels: Seq<bool>,
    m: int,
    n: int,
    sm: u32,
    tm: u32,
    sn: u32,
    tn: u32,
)
    requires
        c.wf(),
        0 <= m < n,
        action_at(c, cancels, m) == Some(Action::ReportProgress {
            shots_done: sm,
            total_shots: tm,
        }),
        action_at(c, cancels, n) == Some(Action::ReportProgress {
            shots_done: sn,
            total_shots: tn,
        }),
    ensures
        sm < sn,
        tm == tn,
        sm < tm,
        sn < tn,
{
    lemma_trace_wf(c, cancels, m);
    lemma_trace_wf(c, cancels, n);
    lemma_report_exact(state_at(c, cancels, m), cancels[m]);
    lemma_report_exact(state_at(c, cancels, n), cancels[n]);
    assert(state_at(c, cancels, m + 1) == step_state(state_at(c, cancels, m), cancels[m]));
    lemma_run_bounded(c, cancels, m + 1, n);
}

/// The sleep amounts handed to the runner are exactly the timing module's
/// quantities: every motor step carries the configured settling delay, and a
/// residual wait carries `residual_wait_spec` of the shot in progress — the
/// very amounts that `lemma_run_cadence_lower_bound` sums into the cadence
/// lower bound of a run.
pub proof fn lemma_sleep_amounts_exact(c: Coordinator, cancel: bool)
    requires
        c.wf(),
    ensures
        (match step_action(c, cancel) {
            Some(Action::MotorStep { settle_millis, .. }) => settle_millis
                == c.params.step_delay_millis as u64,
            Some(Action::ResidualWait { millis }) => millis as int == residual_wait_spec(
                c.params,
                c.shot as int,
            ),
            _ => true,
        }),
{
}

/// `Finish` is emitted exactly at the step that ends the run: at a shot
/// start where the flag was seen set or where all shots are done. The
/// coordinator is `Done` right after, and `Done` emits nothing, ever.
pub proof fn lemma_finish_characterization(c: Coordinator, cancel: bool)
    requires
        c.wf(),
    ensures
        step_action(c, cancel) == Some(Action::Finish) <==> (c.stage is ShotStart && (cancel
            || c.shot as int == c.params.total_shots_spec())),
        step_action(c, cancel) == Some(Action::Finish) ==> step_state(c, cancel).stage is Done,
        c.stage is Done ==> step_action(c, cancel) is None && step_state(c, cancel) == c,
{
}

/// Once a run is `Done` it stays `Done` and asks for nothing more.
pub proof fn lemma_done_absorbing(c: Coordinator, cancels: Seq<bool>, m: int, n: int)
    requires
        c.wf(),
        0 <= m <= n,
        state_at(c, cancels, m).stage is Done,
    ensures
        state_at(c, cancels, n) == state_at(c, cancels, m),
        action_at(c, cancels, n) is None,
    decreases n - m,
{
    if m < n {
        lemma_done_absorbing(c, cancels, m, n - 1);
    }
}

/// The end of a run is announced at most once: after a `Finish` no further
/// action — in particular no second `Finish` — is ever emitted.
pub proof fn lemma_finish_at_most_once(c: Coordinator, cancels: Seq<bool>, m: int, n: int)
    requires
        c.wf(),
        0 <= m < n,
        action_at(c, cancels, m) == Some(Action::Finish),
    ensures
        action_at(c, cancels, n) is None,
    decreases n - m,
{
    lemma_trace_wf(c, cancels, m);
    lemma_finish_characterization(state_at(c, cancels, m), cancels[m]);
    assert(state_at(c, cancels, m + 1).stage is Done);
    lemma_done_absorbing(c, cancels, m + 1, n);
}

/// The end of a run is announced at least once: a run that ended — whether
/// it completed or was cancelled — emitted `Finish` at some earlier step.
/// With [`lemma_finish_at_most_once`]: exactly once.
pub proof fn lemma_finish_at_least_once(c: Coordinator, cancels: Seq<bool>, n: int)
    requires
        c.wf(),
        0 <= n,
        !(c.stage is Done),
        state_at(c, cancels, n).stage is Done,
    ensures
        exists|m: int| 0 <= m < n && action_at(c, cancels, m) == Some(Action::Finish),
    decreases n,
{
    if state_at(c, cancels, n - 1).stage is Done {
        lemma_finish_at_least_once(c, cancels, n - 1);
        let m = choose|m: int| 0 <= m < n - 1 && action_at(c, cancels, m) == Some(Action::Finish);
        assert(0 <= m < n && action_at(c, cancels, m) == Some(Action::Finish));
    } else {
        lemma_trace_wf(c, cancels, n - 1);
        lemma_finish_characterization(state_at(c, cancels, n - 1), cancels[n - 1]);
        assert(action_at(c, cancels, n - 1) == Some(Action::Finish));
    }
}

/// With the cancellation flag set, one step never triggers the shutter and
/// never starts moving the motor for a new shot.
pub proof fn lemma_cancel_step(c: Coordinator, cancel: bool)
    requires
        c.wf(),
        cancel,
    ensures
        step_action(c, cancel) != Some(Action::TriggerShutter),
        step_state(c, cancel).stage is Stepping ==> (c.stage is Stepping && step_state(
            c,
            cancel,
        ).shot == c.shot),
{
}

/// While the flag stays set, the only motor movement left is the tail of the
/// shot that was already in progress when it was set.
pub proof fn lemma_cancel_stepping_frozen(c: Coordinator, cancels: Seq<bool>, t0: int, n: int)
    requires
        c.wf(),
        0 <= t0 <= n,
        forall|t: int| t0 <= t < n ==> cancels[t],
    ensures
        state_at(c, cancels, n).stage is Stepping ==> (state_at(c, cancels, t0).stage is Stepping
            && state_at(c, cancels, n).shot == state_at(c, cancels, t0).shot),
    decreases n - t0,
{
    if t0 < n {
        lemma_cancel_stepping_frozen(c, cancels, t0, n - 1);
        lemma_trace_wf(c, cancels, n - 1);
        lemma_cancel_step(state_at(c, cancels, n - 1), cancels[n - 1]);
    }
}

/// Cancellation takes effect with at most the shot in progress as lag: from
/// any point at which the flag is set and stays set, the shutter is never
/// triggered again, and any motor step still performed belongs to the shot
/// that was already in progress — never to a later one.
pub proof fn lemma_cancellation(c: Coordinator, cancels: Seq<bool>, t0: int, n: int)
    requires
        c.wf(),
        0 <= t0 <= n,
        forall|t: int| t0 <= t <= n ==> cancels[t],
    ensures
        action_at(c, cancels, n) != Some(Action::TriggerShutter),
        (action_at(c, cancels, n) matches Some(Action::MotorStep { .. })) ==> state_at(
            c,
            cancels,
            n,
        ).shot == state_at(c, cancels, t0).shot,
{
    lemma_trace_wf(c, cancels, n);
    lemma_cancel_step(state_at(c, cancels, n), cancels[n]);
    lemma_cancel_stepping_frozen(c, cancels, t0, n);
    if action_at(c, cancels, n) matches Some(Action::MotorStep { .. }) {
        assert(state_at(c, cancels, n).stage is Stepping);
    }
}

/// Once a shot's movement has begun, the coordinator stays with that shot
/// until the shot counter moves strictly past it.
proof fn lemma_mid_shot_stays_or_advances(c: Coordinator, cancels: Seq<bool>, m: int, n: int)
    requires
        c.wf(),
        0 <= m <= n,
        state_at(c, cancels, m).stage is Stepping || state_at(c, cancels, m).stage is Report,
    ensures
        state_at(c, cancels, n).shot > state_at(c, cancels, m).shot || ((state_at(
            c,
            cancels,
            n,
        ).stage is Stepping || state_at(c, cancels, n).stage is Report) && state_at(
            c,
            cancels,
            n,
        ).shot == state_at(c, cancels, m).shot),
    decreases n - m,
{
    if m < n {
        lemma_mid_shot_stays_or_advances(c, cancels, m, n - 1);
        lemma_trace_wf(c, cancels, n - 1);
        lemma_step_shot_monotone(state_at(c, cancels, n - 1), cancels[n - 1]);
    }
}

/// Hardware effects are ordered by shot: of two shutter triggers of one run,
/// the later belongs to a strictly later shot — shot `i`'s trigger precedes
/// shot `i + 1`'s, never the other way around.
pub proof fn lemma_shutter_ordering(c: Coordinator, cancels: Seq<bool>, m: int, n: int)
    requires
        c.wf(),
        0 <= m < n,
        action_at(c, cancels, m) == Some(Action::TriggerShutter),
        action_at(c, cancels, n) == Some(Action::TriggerShutter),
    ensures
        state_at(c, cancels, m).shot < state_at(c, cancels, n).shot,
{
    lemma_trace_wf(c, cancels, m);
    lemma_trace_wf(c, cancels, n);
    assert(state_at(c, cancels, m + 1) == step_state(state_at(c, cancels, m), cancels[m]));
    assert(state_at(c, cancels, m + 1).stage is Stepping && state_at(c, cancels, m + 1).shot
        == state_at(c, cancels, m).shot);
    lemma_mid_shot_stays_or_advances(c, cancels, m + 1, n);
    assert(state_at(c, cancels, n).stage is ShotStart);
}

/// An upper bound on how many more calls of `next` the run can ask work of:
/// the actions left for the remaining shots (each shot is one shutter, its
/// microsteps, at most one wait and one report) plus the final `Finish`.
pub open spec fn steps_remaining(c: Coordinator) -> int {
    let last = c.boundary(c.total());
    match c.stage {
        Stage::Done => 0,
        Stage::ShotStart => last - c.boundary(c.shot as int) + 3 * (c.total() - c.shot as int) + 1,
        Stage::Stepping => last - c.microstep as int + 3 * (c.total() - c.shot as int),
        Stage::Report => last - c.boundary(c.shot as int + 1) + 3 * (c.total() - c.shot as int) - 1,
    }
}

/// Every run ends, cancelled or not: each call of `next` strictly decreases
/// the non-negative measure [`steps_remaining`] until the coordinator is
/// `Done`, so the runner's loop finishes within that many calls whatever the
/// cancellation flag reads.
pub proof fn lemma_run_terminates(c: Coordinator, cancel: bool)
    requires
        c.wf(),
    ensures
        c.stage is Done ==> steps_remaining(c) == 0,
        !(c.stage is Done) ==> 0 < steps_remaining(c) && steps_remaining(step_state(c, cancel))
            < steps_remaining(c),
{
    let steps = c.params.steps_per_revolution as int;
    let shot = c.shot as int;
    if !(c.stage is Done) {
        crate::timing::lemma_boundary_monotone(steps, shot, c.total());
        if !(c.stage is ShotStart) {
            crate::timing::lemma_boundary_monotone(steps, shot + 1, c.total());
        }
    }
}

} // verus!
