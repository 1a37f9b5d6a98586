//! Backlight control: parsing of brightness arguments, the saved-brightness
//! store, the transition protocol and the decisions of the sysfs driver.

pub mod brightness;
pub mod commands;
pub mod discovery;
pub mod driver;
pub mod error;
pub mod state_store;
pub mod sysfs;
pub mod transition;

pub use discovery::DeviceScanner;
pub use driver::{BacklightDriver, BacklightError};
pub use error::CliError;
pub use transition::{Linear, TransitionConfig};
