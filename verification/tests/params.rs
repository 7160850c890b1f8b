use rotating_table::params::{ConfigError, RunParameters};

#[test]
fn validate_accepts_ordinary_numbers() {
    let p = RunParameters::validate(8, 2, 1000, 50).unwrap();
    assert_eq!(p.steps_per_revolution, 8);
    assert_eq!(p.revolutions, 2);
    assert_eq!(p.shot_delay_millis, 1000);
    assert_eq!(p.step_delay_millis, 50);
    assert_eq!(p.total_shots(), 16);
}

#[test]
fn validate_rejects_zero_steps_per_revolution() {
    let r = RunParameters::validate(0, 5, 1000, 50);
    assert_eq!(r, Err(ConfigError::ZeroStepsPerRevolution));
}

#[test]
fn validate_rejects_total_shot_overflow() {
    let r = RunParameters::validate(u32::MAX, 2, 0, 0);
    assert_eq!(r, Err(ConfigError::TooManyShots));
}

#[test]
fn validate_accepts_zero_revolutions() {
    let p = RunParameters::validate(8, 0, 1000, 50).unwrap();
    assert_eq!(p.total_shots(), 0);
}

#[test]
fn validate_accepts_zero_delays() {
    let p = RunParameters::validate(8, 1, 0, 0).unwrap();
    assert_eq!(p.total_shots(), 8);
}
