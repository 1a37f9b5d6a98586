use std::io;
use std::path::PathBuf;
use vstd::prelude::*;

use crate::driver::BacklightError;

verus! {

/// An error of the TOML reader; carried through opaque.
#[verifier::external_type_specification]
#[verifier::external_body]
pub struct ExTomlDeError(toml::de::Error);

/// An error of the TOML writer; carried through opaque.
#[verifier::external_type_specification]
#[verifier::external_body]
pub struct ExTomlSerError(toml::ser::Error);

/// Errors that can occur while running a command, including failures
/// accessing the saved-brightness state file used by `set --save` and
/// `restore`.
#[derive(Debug)]
pub enum CliError {
    Backlight(BacklightError),
    NoSavedBrightness { device: String },
    StateRead { path: PathBuf, source: io::Error },
    StateWrite { path: PathBuf, source: io::Error },
    StateParse { path: PathBuf, source: toml::de::Error },
    StateSerialize { source: toml::ser::Error },
}

} // verus!
