//! The library's error type.
use vstd::prelude::*;

verus! {

/// `std::io::Error`, carried opaquely in `AppError::Io`.
#[verifier::external_type_specification]
#[verifier::external_body]
pub struct ExIoError(std::io::Error);

#[derive(Debug)]
pub enum AppError {
    AdbNotFound(String),
    AdbCommandFailed(String),
    AdbServer(String),
    DeviceUnauthorized,
    NoDeviceConnected,
    MultipleDevices(Vec<String>),
    DeviceDisconnected(String),
    TelephonyUnavailable(String),
    ParseError(String),
    NotificationError(String),
    ConfigError(String),
    Io(std::io::Error),
    Other(String),
}

pub type Result<T> = std::result::Result<T, AppError>;

} // verus!
