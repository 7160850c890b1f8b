//! The coil-energization pattern of the 4-wire stepper in half-step drive.

use vstd::prelude::*;

verus! {

/// One energization state of the four motor coils, in wiring order: `true`
/// means the line is driven high.
#[derive(Clone, Copy, Debug, PartialEq, Eq, Structural)]
pub struct CoilPattern {
    pub in1: bool,
    pub in2: bool,
    pub in3: bool,
    pub in4: bool,
}

/// Number of distinct coil states in the half-step drive cycle.
pub const PATTERN_LEN: u64 = 8;

/// The fixed half-step drive cycle: position `k` (for `0 <= k < 8`) is the
/// coil state the motor must be put in `k` microsteps into the cycle, so
/// that walking the positions in order powers the coils in sequence.
pub open spec fn half_step_pattern(k: int) -> CoilPattern {
    if k == 0 {
        CoilPattern { in1: true, in2: false, in3: false, in4: true }
    } else if k == 1 {
        CoilPattern { in1: true, in2: false, in3: false, in4: false }
    } else if k == 2 {
        CoilPattern { in1: true, in2: true, in3: false, in4: false }
    } else if k == 3 {
        CoilPattern { in1: false, in2: true, in3: false, in4: false }
    } else if k == 4 {
        CoilPattern { in1: false, in2: true, in3: true, in4: false }
    } else if k == 5 {
        CoilPattern { in1: false, in2: false, in3: true, in4: false }
    } else if k == 6 {
        CoilPattern { in1: false, in2: false, in3: true, in4: true }
    } else {
        CoilPattern { in1: false, in2: false, in3: false, in4: true }
    }
}

/// The coil state for an absolute microstep index. The index is reduced
/// modulo the cycle length here, so no caller can ever ask the driver for an
/// out-of-range pattern position.
pub fn pattern_for(microstep: u64) -> (r: CoilPattern)
    ensures
        r == half_step_pattern((microstep % PATTERN_LEN) as int),
{
    let k: u64 = microstep % PATTERN_LEN;
    if k == 0 {
        CoilPattern { in1: true, in2: false, in3: false, in4: true }
    } else if k == 1 {
        CoilPattern { in1: true, in2: false, in3: false, in4: false }
    } else if k == 2 {
        CoilPattern { in1: true, in2: true, in3: false, in4: false }
    } else if k == 3 {
        CoilPattern { in1: false, in2: true, in3: false, in4: false }
    } else if k == 4 {
        CoilPattern { in1: false, in2: true, in3: true, in4: false }
    } else if k == 5 {
        CoilPattern { in1: false, in2: false, in3: true, in4: false }
    } else if k == 6 {
        CoilPattern { in1: false, in2: false, in3: true, in4: true }
    } else {
        CoilPattern { in1: false, in2: false, in3: false, in4: true }
    }
}

} // verus!
