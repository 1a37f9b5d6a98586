use bllib::driver::{check_value, device_id, device_id_of};
use bllib::{BacklightDriver, BacklightError};

struct Named;

impl BacklightDriver for Named {
    fn name(&self) -> &str {
        "intel_backlight"
    }

    fn driver_name(&self) -> &'static str {
        "ACPI"
    }

    fn get_brightness(&self) -> Result<u32, BacklightError> {
        Ok(0)
    }

    fn get_max_brightness(&self) -> Result<u32, BacklightError> {
        Ok(0)
    }

    fn set_brightness(&self, _value: u32) -> Result<(), BacklightError> {
        Ok(())
    }
}

#[test]
fn device_id_lowercases_the_driver_name() {
    assert_eq!(device_id_of("ACPI", "intel_backlight"), "acpi:intel_backlight");
    assert_eq!(device_id_of("sysfs", "Panel"), "sysfs:Panel");
    assert_eq!(device_id(&Named), "acpi:intel_backlight");
    let boxed: Box<dyn BacklightDriver> = Box::new(Named);
    assert_eq!(device_id(boxed.as_ref()), "acpi:intel_backlight");
}

#[test]
fn check_value_refuses_only_above_max() {
    assert!(check_value("d", 0, 0).is_ok());
    assert!(matches!(check_value("d", 1, 0), Err(BacklightError::InvalidValue { value: 1, max: 0, .. })));
}
