use std::io;
use std::path::PathBuf;
use vstd::prelude::*;

verus! {

/// An I/O error reported by the operating system; carried through opaque.
#[verifier::external_type_specification]
#[verifier::external_body]
pub struct ExIoError(io::Error);

/// A filesystem path; carried through opaque.
#[verifier::external_type_specification]
#[verifier::external_body]
pub struct ExPathBuf(PathBuf);

/// A pluggable way of sending backlight commands to a device.
///
/// All brightness values are raw device units as reported by the driver's
/// underlying interface (for the sysfs driver, this is whatever scale the
/// kernel exposes via `max_brightness`; it is not normalized to 0-100).
pub trait BacklightDriver {
    /// Identifier of the device this driver instance targets.
    fn name(&self) -> &str;

    /// Identifier of the driver backend used to control this device
    /// (e.g. `"sysfs"`).
    fn driver_name(&self) -> &'static str;

    /// Current brightness, in raw device units.
    fn get_brightness(&self) -> Result<u32, BacklightError>;

    /// Maximum brightness accepted by this device, in raw device units.
    fn get_max_brightness(&self) -> Result<u32, BacklightError>;

    /// Set brightness to `value` (raw device units).
    fn set_brightness(&self, value: u32) -> Result<(), BacklightError>;
}

/// Errors produced by a [`BacklightDriver`].
#[derive(Debug)]
pub enum BacklightError {
    /// The targeted device does not exist.
    NotFound { device: String, path: PathBuf },
    /// The underlying interface refused the write due to permissions.
    PermissionDenied { device: String, source: io::Error },
    /// The requested value is not valid for this device (e.g. out of range).
    InvalidValue { device: String, value: u32, max: u32 },
    /// Any other I/O failure talking to the device.
    Io { device: String, source: io::Error },
}

/// Checks `value` against the device's maximum brightness.
pub fn check_value(device: &str, value: u32, max: u32) -> (r: Result<(), BacklightError>)
    ensures
        r is Ok <==> value <= max,
        r matches Err(BacklightError::InvalidValue { device: d, value: v, max: m }) ==> d@ == device@ && v == value && m == max,
        r matches Err(e) ==> e is InvalidValue,
{
    if value > max {
        Err(BacklightError::InvalidValue { device: device.to_string(), value, max })
    } else {
        Ok(())
    }
}


/// The text that `str::to_lowercase` makes of `text` (Unicode lower case).
pub uninterp spec fn lowercase_of(text: Seq<char>) -> Seq<char>;

/// Calls `str::to_lowercase`. Claimed: the result is the named text.
#[verifier::external_body]
fn to_lowercase(s: &str) -> (r: String)
    ensures
        r@ == lowercase_of(s@),
{
    s.to_lowercase()
}

/// The identifier under which the brightness of a device is saved:
/// `<driver>:<device>`, the driver's name in lower case.
pub open spec fn device_id_text(driver_name: Seq<char>, name: Seq<char>) -> Seq<char> {
    lowercase_of(driver_name) + seq![':'] + name
}

/// Identifier used to key saved-brightness state for the device `name` of
/// the driver backend `driver_name` (e.g. `acpi:intel_backlight`).
pub fn device_id_of(driver_name: &str, name: &str) -> (r: String)
    ensures
        r@ == device_id_text(driver_name@, name@),
{
    let mut id = to_lowercase(driver_name);
    id.append(":");
    id.append(name);
    proof {
        reveal_strlit(":");
        assert(":"@ =~= seq![':']);
    }
    id
}

/// Identifier used to key saved-brightness state, of the form
/// `<driver>:<device>` (e.g. `acpi:intel_backlight`), made of the names
/// that the driver gives when asked.
pub fn device_id<D: BacklightDriver + ?Sized>(driver: &D) -> (r: String)
    ensures
        exists|driver_name: &'static str, name: &str|
            call_ensures(D::driver_name, (driver,), driver_name) && call_ensures(D::name, (driver,), name)
                && r@ == device_id_text(driver_name@, name@),
{
    let driver_name = driver.driver_name();
    let name = driver.name();
    device_id_of(driver_name, name)
}

} // verus!
