//! The closed error taxonomy for native status codes.

use vstd::prelude::*;
use vstd::string::StringExecFns;

verus! {

/// Type representing an error code returned by OpenCL functions.
///
/// Raw codes outside the modeled subset collapse to [`Error::Unknown`], so
/// newer native code values stay non-breaking.
#[derive(Eq, PartialEq, Copy, Clone, Debug, Structural)]
pub enum Error {
    /// An unsupported error code was received.
    Unknown,
    /// The operation succeeded.
    Success,
    /// No devices matching the requested type filter were found.
    DeviceNotFound,
    /// An invalid value was passed as parameter.
    InvalidValue,
    /// An invalid platform ID was passed as parameter.
    InvalidPlatform,
    /// The native layer handed back text that is not valid UTF-8, or too
    /// short to carry its terminating NUL byte.
    InvalidEncoding,
    /// No platform is available on this system.
    NoPlatform,
}

/// The error kind denoted by a raw native status code.
///
/// Total over all integers: every unrecognized code maps to `Unknown`.
pub open spec fn spec_error_of_code(code: i32) -> Error {
    if code == 0 {
        Error::Success
    } else if code == -1 {
        Error::DeviceNotFound
    } else if code == -30 {
        Error::InvalidValue
    } else if code == -32 {
        Error::InvalidPlatform
    } else {
        Error::Unknown
    }
}

impl From<i32> for Error {
    fn from(code: i32) -> (r: Self) {
        match code {
            0 => Error::Success,
            -1 => Error::DeviceNotFound,
            -30 => Error::InvalidValue,
            -32 => Error::InvalidPlatform,
            _ => Error::Unknown,
        }
    }
}

impl vstd::std_specs::convert::FromSpecImpl<i32> for Error {
    open spec fn obeys_from_spec() -> bool {
        true
    }

    open spec fn from_spec(code: i32) -> Self {
        spec_error_of_code(code)
    }
}

impl Default for Error {
    /// The default error code is [`Error::Unknown`].
    fn default() -> (r: Self)
        ensures
            r == Error::Unknown,
    {
        Error::Unknown
    }
}

impl Error {
    /// The fixed human-readable description of this error kind.
    pub fn description(&self) -> (r: String)
        ensures
            *self == Error::Unknown ==> r@ == "An unknown error occurred."@,
            *self == Error::Success ==> r@ == "The operation completed successfully."@,
            *self == Error::DeviceNotFound ==> r@ == "No devices matching the requested type were found."@,
            *self == Error::InvalidValue ==> r@ == "An invalid value was passed as parameter."@,
            *self == Error::InvalidPlatform ==> r@ == "An invalid platform ID was passed as parameter."@,
            *self == Error::InvalidEncoding ==> r@ == "The native layer returned malformed text."@,
            *self == Error::NoPlatform ==> r@ == "No OpenCL platform is available."@,
    {
        match *self {
            Error::Unknown => String::from_str("An unknown error occurred."),
            Error::Success => String::from_str("The operation completed successfully."),
            Error::DeviceNotFound => String::from_str("No devices matching the requested type were found."),
            Error::InvalidValue => String::from_str("An invalid value was passed as parameter."),
            Error::InvalidPlatform => String::from_str("An invalid platform ID was passed as parameter."),
            Error::InvalidEncoding => String::from_str("The native layer returned malformed text."),
            Error::NoPlatform => String::from_str("No OpenCL platform is available."),
        }
    }
}

} // verus!
