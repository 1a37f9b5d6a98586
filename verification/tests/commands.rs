use bllib::commands::{CommandAction, CommandEvent, CommandKind, CommandRun};
use bllib::discovery::DeviceScanner;
use bllib::{BacklightDriver, BacklightError, CliError};

#[test]
fn max_prints_the_maximum() {
    let (mut run, first) = CommandRun::new(CommandKind::Max, "sysfs:panel".to_string());
    assert!(matches!(first, CommandAction::ReadMax));
    assert!(matches!(run.advance(CommandEvent::MaxRead(Ok(937))), CommandAction::Done(Ok(Some(937)))));
}

#[test]
fn get_prints_the_current_brightness() {
    let (mut run, first) = CommandRun::new(CommandKind::Get, "sysfs:panel".to_string());
    assert!(matches!(first, CommandAction::ReadCurrent));
    assert!(matches!(run.advance(CommandEvent::CurrentRead(Ok(12))), CommandAction::Done(Ok(Some(12)))));
}

#[test]
fn read_failure_is_a_backlight_error() {
    let (mut run, _) = CommandRun::new(CommandKind::Max, "sysfs:panel".to_string());
    let failure = BacklightError::InvalidValue { device: "panel".to_string(), value: 1, max: 0 };
    assert!(matches!(
        run.advance(CommandEvent::MaxRead(Err(failure))),
        CommandAction::Done(Err(CliError::Backlight(BacklightError::InvalidValue { .. })))
    ));
}

#[test]
fn set_with_save_saves_previous_brightness_then_transitions() {
    let kind = CommandKind::SetBrightness { immediate: false, save: true };
    let (mut run, first) = CommandRun::new(kind, "sysfs:panel".to_string());
    assert!(matches!(first, CommandAction::ReadMax));
    assert!(matches!(run.advance(CommandEvent::MaxRead(Ok(100))), CommandAction::ReadCurrent));
    assert!(matches!(
        run.advance(CommandEvent::CurrentRead(Ok(40))),
        CommandAction::Resolve { current: 40, max: 100 }
    ));
    assert!(matches!(run.advance(CommandEvent::Resolved(70)), CommandAction::SaveState { value: 40 }));
    assert!(matches!(run.advance(CommandEvent::StateSaved(Ok(()))), CommandAction::Transition { value: 70 }));
    assert!(matches!(run.advance(CommandEvent::TransitionDone(Ok(()))), CommandAction::Done(Ok(None))));
}

#[test]
fn immediate_set_writes_directly() {
    let kind = CommandKind::SetBrightness { immediate: true, save: false };
    let (mut run, _) = CommandRun::new(kind, "sysfs:panel".to_string());
    run.advance(CommandEvent::MaxRead(Ok(100)));
    run.advance(CommandEvent::CurrentRead(Ok(40)));
    assert!(matches!(run.advance(CommandEvent::Resolved(5)), CommandAction::SetBrightness { value: 5 }));
    assert!(matches!(run.advance(CommandEvent::BrightnessSet(Ok(()))), CommandAction::Done(Ok(None))));
}

#[test]
fn restore_moves_back_then_forgets() {
    let (mut run, first) = CommandRun::new(CommandKind::Restore, "sysfs:panel".to_string());
    assert!(matches!(first, CommandAction::LoadState));
    assert_eq!(run.saved_under(), "sysfs:panel");
    assert!(matches!(run.advance(CommandEvent::StateLoaded(Ok(Some(33)))), CommandAction::Transition { value: 33 }));
    assert!(matches!(run.advance(CommandEvent::TransitionDone(Ok(()))), CommandAction::RemoveState));
    assert!(matches!(run.advance(CommandEvent::StateRemoved(Ok(()))), CommandAction::Done(Ok(None))));
}

#[test]
fn restore_without_saved_value_names_the_device() {
    let (mut run, _) = CommandRun::new(CommandKind::Restore, "sysfs:panel".to_string());
    match run.advance(CommandEvent::StateLoaded(Ok(None))) {
        CommandAction::Done(Err(CliError::NoSavedBrightness { device })) => assert_eq!(device, "sysfs:panel"),
        other => panic!("unexpected {other:?}"),
    }
}

#[test]
fn failed_restore_keeps_the_saved_value() {
    let (mut run, _) = CommandRun::new(CommandKind::Restore, "sysfs:panel".to_string());
    run.advance(CommandEvent::StateLoaded(Ok(Some(33))));
    let failure = BacklightError::InvalidValue { device: "panel".to_string(), value: 33, max: 10 };
    assert!(matches!(
        run.advance(CommandEvent::TransitionDone(Err(failure))),
        CommandAction::Done(Err(CliError::Backlight(_)))
    ));
}

struct Fixed(u32);

impl BacklightDriver for Fixed {
    fn name(&self) -> &str {
        "fixed"
    }

    fn driver_name(&self) -> &'static str {
        "test"
    }

    fn get_brightness(&self) -> Result<u32, BacklightError> {
        Ok(self.0)
    }

    fn get_max_brightness(&self) -> Result<u32, BacklightError> {
        Ok(100)
    }

    fn set_brightness(&self, _value: u32) -> Result<(), BacklightError> {
        Ok(())
    }
}

struct TwoDevices;

impl DeviceScanner for TwoDevices {
    type Driver = Fixed;

    fn scan(&self) -> Result<Vec<Fixed>, BacklightError> {
        Ok(vec![Fixed(1), Fixed(2)])
    }
}

#[test]
fn scan_boxed_keeps_every_device_in_order() {
    let found = TwoDevices.scan_boxed().unwrap();
    let levels: Vec<u32> = found.iter().map(|d| d.get_brightness().unwrap()).collect();
    assert_eq!(levels, vec![1, 2]);
}
