use vstd::prelude::*;

verus! {

/// The standard library's I/O error, carried through unchanged.
#[verifier::external_type_specification]
#[verifier::external_body]
pub struct ExIoError(std::io::Error);

/// Failures of the settings and reconfiguration paths.
#[derive(Debug)]
pub enum SettingsError {
    /// A reconfiguration was asked for while the timer was running.
    UpdateError(),
    /// A reconfiguration carried no value, or one that would make the total
    /// time (work duration times iteration count) overflow an `i64`.
    InvalidValue,
    SaveError(String),
    LoadError(String),
    HomeDirNotFound,
    IO(std::io::Error),
}

/// Top-level error of the program.
#[derive(Debug)]
pub enum Error {
    IO(std::io::Error),
    SettingsError(SettingsError),
}

impl From<std::io::Error> for SettingsError {
    fn from(e: std::io::Error) -> (r: SettingsError) {
        SettingsError::IO(e)
    }
}

impl vstd::std_specs::convert::FromSpecImpl<std::io::Error> for SettingsError {
    open spec fn obeys_from_spec() -> bool {
        true
    }

    open spec fn from_spec(e: std::io::Error) -> SettingsError {
        SettingsError::IO(e)
    }
}

impl From<std::io::Error> for Error {
    fn from(e: std::io::Error) -> (r: Error) {
        Error::IO(e)
    }
}

impl vstd::std_specs::convert::FromSpecImpl<std::io::Error> for Error {
    open spec fn obeys_from_spec() -> bool {
        true
    }

    open spec fn from_spec(e: std::io::Error) -> Error {
        Error::IO(e)
    }
}

impl From<SettingsError> for Error {
    fn from(e: SettingsError) -> (r: Error) {
        Error::SettingsError(e)
    }
}

impl vstd::std_specs::convert::FromSpecImpl<SettingsError> for Error {
    open spec fn obeys_from_spec() -> bool {
        true
    }

    open spec fn from_spec(e: SettingsError) -> Error {
        Error::SettingsError(e)
    }
}

} // verus!
