//! Per-shot timing arithmetic: microstep boundaries and the residual wait
//! that keeps the shutter cadence independent of how far the motor moves.

use vstd::prelude::*;
use crate::params::{RunParameters, FULL_ROTATION_UNITS};
use vstd::arithmetic::div_mod::{
    lemma_div_is_ordered,
    lemma_div_is_ordered_by_denominator,
    lemma_div_pos_is_pos,
};
use vstd::arithmetic::mul::{lemma_mul_nonnegative, lemma_mul_upper_bound};

verus! {

/// `a / b` rounded to the nearest integer, halves rounded up.
pub open spec fn round_div(a: int, b: int) -> int
    recommends
        b > 0,
{
    (2 * a + b) / (2 * b)
}

/// The microstep boundary of shot `shot`: the motor position (in microsteps
/// from the run's origin) at which that shot is taken. Shot `shot` moves the
/// motor through microsteps `[boundary(shot), boundary(shot + 1))`, so that
/// after `steps_per_revolution` shots the table has turned one revolution as
/// exactly as integer rounding allows.
pub open spec fn microstep_boundary_spec(steps_per_revolution: int, shot: int) -> int {
    round_div(FULL_ROTATION_UNITS as int * shot, steps_per_revolution)
}

/// Boundaries start at or above zero and never exceed their own numerator,
/// so they fit comfortably in a `u64`.
pub proof fn lemma_boundary_in_range(steps_per_revolution: int, shot: int)
    requires
        steps_per_revolution > 0,
        0 <= shot,
    ensures
        0 <= microstep_boundary_spec(steps_per_revolution, shot)
            <= 2 * ((FULL_ROTATION_UNITS as int) * shot) + steps_per_revolution,
{
    let num = 2 * ((FULL_ROTATION_UNITS as int) * shot) + steps_per_revolution;
    let den = 2 * steps_per_revolution;
    lemma_div_pos_is_pos(num, den);
    lemma_div_is_ordered_by_denominator(num, 1, den);
    vstd::arithmetic::div_mod::lemma_div_basics(num);
    assert(microstep_boundary_spec(steps_per_revolution, shot) == num / den);
}

/// Boundaries are monotone in the shot index: later shots stand at or past
/// earlier ones.
pub proof fn lemma_boundary_monotone(steps_per_revolution: int, i: int, j: int)
    requires
        steps_per_revolution > 0,
        0 <= i <= j,
    ensures
        microstep_boundary_spec(steps_per_revolution, i)
            <= microstep_boundary_spec(steps_per_revolution, j),
{
    lemma_div_is_ordered(
        2 * ((FULL_ROTATION_UNITS as int) * i) + steps_per_revolution,
        2 * ((FULL_ROTATION_UNITS as int) * j) + steps_per_revolution,
        2 * steps_per_revolution,
    );
}

/// The microstep boundary of shot `shot`, computed on machine integers.
pub fn microstep_boundary(steps_per_revolution: u32, shot: u32) -> (r: u64)
    requires
        steps_per_revolution > 0,
    ensures
        r as int == microstep_boundary_spec(steps_per_revolution as int, shot as int),
{
    let a: u64 = FULL_ROTATION_UNITS * (shot as u64);
    let b: u64 = steps_per_revolution as u64;
    (2 * a + b) / (2 * b)
}

/// The boundary one past shot `shot`: where the motor stands when the shot's
/// movement is done.
pub fn microstep_end(steps_per_revolution: u32, shot: u32) -> (r: u64)
    requires
        steps_per_revolution > 0,
        shot < u32::MAX,
    ensures
        r as int == microstep_boundary_spec(steps_per_revolution as int, shot as int + 1),
{
    microstep_boundary(steps_per_revolution, shot + 1)
}

/// How many microsteps shot `shot` moves the motor.
pub open spec fn span_spec(p: RunParameters, shot: int) -> int {
    microstep_boundary_spec(p.steps_per_revolution as int, shot + 1)
        - microstep_boundary_spec(p.steps_per_revolution as int, shot)
}

/// Total motor settling time of shot `shot`, in milliseconds: one
/// `step_delay_millis` sleep for each microstep moved.
pub open spec fn settle_millis_spec(p: RunParameters, shot: int) -> int {
    p.step_delay_millis as int * span_spec(p, shot)
}

/// The wait after shot `shot`'s movement: whatever of the configured shot
/// delay the motor settling has not already used up, and nothing when the
/// settling alone took at least that long.
pub open spec fn residual_wait_spec(p: RunParameters, shot: int) -> int {
    if p.shot_delay_millis as int > settle_millis_spec(p, shot) {
        p.shot_delay_millis as int - settle_millis_spec(p, shot)
    } else {
        0
    }
}

/// The residual wait for shot `shot`, computed on machine integers.
pub fn residual_wait(p: &RunParameters, shot: u32) -> (r: u64)
    requires
        p.valid(),
        shot < u32::MAX,
    ensures
        r as int == residual_wait_spec(*p, shot as int),
{
    let begin: u64 = microstep_boundary(p.steps_per_revolution, shot);
    let end: u64 = microstep_end(p.steps_per_revolution, shot);
    proof {
        lemma_boundary_monotone(p.steps_per_revolution as int, shot as int, shot as int + 1);
        lemma_mul_upper_bound(
            p.step_delay_millis as int,
            u32::MAX as int,
            (end - begin) as int,
            u64::MAX as int,
        );
    }
    let span: u64 = end - begin;
    let settle: u128 = (p.step_delay_millis as u128) * (span as u128);
    if (p.shot_delay_millis as u128) > settle {
        ((p.shot_delay_millis as u128) - settle) as u64
    } else {
        0
    }
}

/// Cadence of one shot: motor settling plus the residual wait never
/// undershoot the configured shot delay.
pub proof fn lemma_shot_cadence(p: RunParameters, shot: int)
    requires
        p.valid(),
        0 <= shot,
    ensures
        settle_millis_spec(p, shot) + residual_wait_spec(p, shot) >= p.shot_delay_millis as int,
{
    lemma_boundary_monotone(p.steps_per_revolution as int, shot, shot + 1);
    lemma_mul_nonnegative(p.step_delay_millis as int, span_spec(p, shot));
}

/// All milliseconds slept on behalf of the first `n` shots: every
/// per-microstep settling sleep and every residual wait.
pub open spec fn run_sleep_total_spec(p: RunParameters, n: int) -> int
    decreases n,
{
    if n <= 0 {
        0
    } else {
        run_sleep_total_spec(p, n - 1) + settle_millis_spec(p, n - 1) + residual_wait_spec(p, n - 1)
    }
}

/// Cadence of a run: over any `n` consecutive shots the coordinator sleeps
/// at least `n` times the configured shot delay, so shutter triggers are
/// spaced at least `shot_delay_millis` apart whatever the step count.
pub proof fn lemma_run_cadence_lower_bound(p: RunParameters, n: int)
    requires
        p.valid(),
        0 <= n,
    ensures
        run_sleep_total_spec(p, n) >= n * p.shot_delay_millis as int,
    decreases n,
{
    if n > 0 {
        lemma_run_cadence_lower_bound(p, n - 1);
        lemma_shot_cadence(p, n - 1);
        assert(run_sleep_total_spec(p, n) == run_sleep_total_spec(p, n - 1)
            + settle_millis_spec(p, n - 1) + residual_wait_spec(p, n - 1));
        assert((n - 1) * p.shot_delay_millis as int + p.shot_delay_millis as int
            == n * p.shot_delay_millis as int) by (nonlinear_arith);
    } else {
        assert(n * p.shot_delay_millis as int == 0) by (nonlinear_arith)
            requires n == 0,
        ;
    }
}

} // verus!
