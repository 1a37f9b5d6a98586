use std::cell::{Cell, RefCell};
use std::time::Duration;

use bllib::transition::{TransitionAction, TransitionConfig, TransitionEvent, TransitionRun};
use bllib::{BacklightDriver, BacklightError};

struct MockDriver {
    max: u32,
    brightness: Cell<u32>,
    history: RefCell<Vec<u32>>,
}

impl MockDriver {
    fn new(brightness: u32, max: u32) -> Self {
        Self {
            max,
            brightness: Cell::new(brightness),
            history: RefCell::new(Vec::new()),
        }
    }
}

impl BacklightDriver for MockDriver {
    fn name(&self) -> &str {
        "mock"
    }

    fn driver_name(&self) -> &'static str {
        "mock"
    }

    fn get_brightness(&self) -> Result<u32, BacklightError> {
        Ok(self.brightness.get())
    }

    fn get_max_brightness(&self) -> Result<u32, BacklightError> {
        Ok(self.max)
    }

    fn set_brightness(&self, value: u32) -> Result<(), BacklightError> {
        self.brightness.set(value);
        self.history.borrow_mut().push(value);
        Ok(())
    }
}

fn fast_config() -> TransitionConfig {
    TransitionConfig {
        duration: Duration::from_millis(20),
        step_interval: Duration::from_millis(5),
    }
}

/// Drives a transition run against `driver` along a straight line, recording
/// the pauses instead of sleeping.
fn run_linear(driver: &MockDriver, target: u32, config: &TransitionConfig) -> (Result<(), BacklightError>, usize) {
    let steps = (config.duration.as_secs_f64() / config.step_interval.as_secs_f64())
        .round()
        .max(1.0) as u64;
    let (mut run, mut action) = TransitionRun::new(driver.name().to_string(), target, steps);
    let mut pauses = 0;
    loop {
        let event = match action {
            TransitionAction::ReadMax => TransitionEvent::MaxRead(driver.get_max_brightness()),
            TransitionAction::ReadCurrent => TransitionEvent::CurrentRead(driver.get_brightness()),
            TransitionAction::Write { start, step } => {
                let t = step as f64 / steps as f64;
                let value = start as f64 + (target as f64 - start as f64) * t;
                TransitionEvent::Written(driver.set_brightness(value.round() as u32))
            }
            TransitionAction::Sleep => {
                pauses += 1;
                TransitionEvent::Slept
            }
            TransitionAction::Finish(r) => return (r, pauses),
        };
        action = run.advance(event);
    }
}

#[test]
fn transitions_from_start_to_target() {
    let driver = MockDriver::new(0, 100);
    run_linear(&driver, 100, &fast_config()).0.unwrap();

    assert_eq!(driver.get_brightness().unwrap(), 100);
    assert_eq!(driver.history.borrow().last(), Some(&100));
}

#[test]
fn is_a_no_op_when_already_at_target() {
    let driver = MockDriver::new(50, 100);
    run_linear(&driver, 50, &fast_config()).0.unwrap();

    assert!(driver.history.borrow().is_empty());
}

#[test]
fn rejects_target_above_max() {
    let driver = MockDriver::new(0, 100);
    let err = run_linear(&driver, 200, &fast_config()).0.unwrap_err();

    assert!(matches!(
        err,
        BacklightError::InvalidValue {
            value: 200,
            max: 100,
            ..
        }
    ));
    assert!(driver.history.borrow().is_empty());
}

#[test]
fn writes_every_step_with_pauses_between() {
    let driver = MockDriver::new(0, 100);
    let (r, pauses) = run_linear(&driver, 100, &fast_config());
    r.unwrap();
    assert_eq!(*driver.history.borrow(), vec![25, 50, 75, 100]);
    assert_eq!(pauses, 3);
}

#[test]
fn invalid_value_names_the_device() {
    let (mut run, _) = TransitionRun::new("panel".to_string(), 7, 3);
    match run.advance(TransitionEvent::MaxRead(Ok(5))) {
        TransitionAction::Finish(Err(BacklightError::InvalidValue { device, value, max })) => {
            assert_eq!(device, "panel");
            assert_eq!((value, max), (7, 5));
        }
        other => panic!("unexpected {other:?}"),
    }
}

#[test]
fn read_failure_ends_the_transition() {
    let (mut run, _) = TransitionRun::new("panel".to_string(), 7, 3);
    let failure = BacklightError::InvalidValue { device: "x".to_string(), value: 1, max: 0 };
    match run.advance(TransitionEvent::MaxRead(Err(failure))) {
        TransitionAction::Finish(Err(BacklightError::InvalidValue { device, .. })) => assert_eq!(device, "x"),
        other => panic!("unexpected {other:?}"),
    }
}

#[test]
fn unexpected_answer_repeats_the_pending_action() {
    let (mut run, first) = TransitionRun::new("panel".to_string(), 7, 3);
    assert!(matches!(first, TransitionAction::ReadMax));
    assert!(matches!(run.advance(TransitionEvent::Slept), TransitionAction::ReadMax));
    assert!(matches!(run.advance(TransitionEvent::MaxRead(Ok(10))), TransitionAction::ReadCurrent));
    assert!(matches!(run.advance(TransitionEvent::CurrentRead(Ok(1))), TransitionAction::Write { start: 1, step: 1 }));
    assert!(matches!(run.advance(TransitionEvent::Slept), TransitionAction::Write { start: 1, step: 1 }));
    assert_eq!(run.step_count(), 3);
    assert_eq!(run.target_brightness(), 7);
}

#[test]
fn single_step_transition_never_pauses() {
    let (mut run, _) = TransitionRun::new("panel".to_string(), 9, 1);
    run.advance(TransitionEvent::MaxRead(Ok(10)));
    assert!(matches!(run.advance(TransitionEvent::CurrentRead(Ok(0))), TransitionAction::Write { start: 0, step: 1 }));
    assert!(matches!(run.advance(TransitionEvent::Written(Ok(()))), TransitionAction::Finish(Ok(()))));
}

#[test]
fn default_config_is_a_quarter_second_in_16ms_steps() {
    let config = TransitionConfig::default();
    assert_eq!(config.duration, Duration::from_millis(250));
    assert_eq!(config.step_interval, Duration::from_millis(16));
}
