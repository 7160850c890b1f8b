use rotating_table::params::RunParameters;
use rotating_table::timing::{microstep_boundary, microstep_end, residual_wait};

#[test]
fn boundaries_divide_the_revolution_evenly() {
    // 1024 shots per revolution: 4 microsteps each, boundaries 0, 4, 8, ...
    assert_eq!(microstep_boundary(1024, 0), 0);
    assert_eq!(microstep_boundary(1024, 1), 4);
    assert_eq!(microstep_boundary(1024, 2), 8);
    assert_eq!(microstep_boundary(1024, 1024), 4096);
    assert_eq!(microstep_end(1024, 0), 4);
}

#[test]
fn boundaries_round_to_nearest_microstep() {
    // 3 shots per revolution: 4096 / 3 = 1365.33..., so boundaries
    // 0, round(1365.33) = 1365, round(2730.67) = 2731, 4096.
    assert_eq!(microstep_boundary(3, 0), 0);
    assert_eq!(microstep_boundary(3, 1), 1365);
    assert_eq!(microstep_boundary(3, 2), 2731);
    assert_eq!(microstep_boundary(3, 3), 4096);
}

#[test]
fn boundaries_are_monotone_and_cover_the_revolution() {
    for steps in [1u32, 2, 3, 5, 164, 1024, 4096] {
        let mut prev = microstep_boundary(steps, 0);
        assert_eq!(prev, 0);
        for shot in 1..=steps {
            let b = microstep_boundary(steps, shot);
            assert!(b >= prev);
            prev = b;
        }
        assert_eq!(prev, 4096);
    }
}

#[test]
fn residual_wait_subtracts_motor_settling() {
    // A one-second shot delay, 50 ms per microstep, 4 microsteps per shot:
    // 1000 - 50 * 4 = 800 ms left to wait.
    let p = RunParameters::validate(1024, 1, 1000, 50).unwrap();
    assert_eq!(residual_wait(&p, 0), 800);
}

#[test]
fn residual_wait_is_zero_when_settling_exceeds_the_budget() {
    // 164 shots per revolution gives shot 0 a span of 25 microsteps:
    // 50 * 25 = 1250 ms of settling exceeds the 1000 ms budget, so the
    // motor settling alone governs the cadence and nothing more is waited.
    let p = RunParameters::validate(164, 1, 1000, 50).unwrap();
    assert_eq!(microstep_end(164, 0) - microstep_boundary(164, 0), 25);
    assert_eq!(residual_wait(&p, 0), 0);
}

#[test]
fn residual_wait_is_zero_with_no_shot_delay() {
    let p = RunParameters::validate(1024, 1, 0, 50).unwrap();
    assert_eq!(residual_wait(&p, 0), 0);
}
