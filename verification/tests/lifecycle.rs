use rotating_table::coordinator::Action;
use rotating_table::lifecycle::{Controller, StartError};
use rotating_table::params::ConfigError;

#[test]
fn concurrent_starts_are_rejected() {
    let mut ctl = Controller::new();
    let first = ctl.try_start(8, 1, 1000, 50);
    assert!(first.is_ok());
    let second = ctl.try_start(8, 1, 1000, 50);
    assert!(matches!(second, Err(StartError::AlreadyRunning)));
}

#[test]
fn a_new_run_may_start_after_the_last_one_finished() {
    let mut ctl = Controller::new();
    let mut coord = ctl.try_start(8, 0, 0, 0).unwrap();
    // Drive the run to its end, then report that end back.
    assert_eq!(coord.next(false), Some(Action::Finish));
    assert_eq!(coord.next(false), None);
    ctl.acknowledge_finished();
    assert!(ctl.try_start(8, 1, 1000, 50).is_ok());
}

#[test]
fn invalid_numbers_do_not_occupy_the_controller() {
    let mut ctl = Controller::new();
    let r = ctl.try_start(0, 1, 1000, 50);
    assert!(matches!(r, Err(StartError::Config(ConfigError::ZeroStepsPerRevolution))));
    let r = ctl.try_start(u32::MAX, 2, 1000, 50);
    assert!(matches!(r, Err(StartError::Config(ConfigError::TooManyShots))));
    assert!(ctl.try_start(8, 1, 1000, 50).is_ok());
}

#[test]
fn started_coordinator_begins_at_shot_zero() {
    let mut ctl = Controller::new();
    let coord = ctl.try_start(16, 2, 500, 10).unwrap();
    assert_eq!(coord.shot, 0);
    assert_eq!(coord.params.steps_per_revolution, 16);
    assert_eq!(coord.params.revolutions, 2);
    assert_eq!(coord.params.shot_delay_millis, 500);
    assert_eq!(coord.params.step_delay_millis, 10);
}
