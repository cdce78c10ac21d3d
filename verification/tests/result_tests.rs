use rusty_cl::result::Error;

#[test]
fn default_error_code() {
    assert_eq!(Error::default(), Error::Unknown);
}

#[test]
fn raw_codes_map_to_kinds() {
    assert_eq!(Error::from(0), Error::Success);
    assert_eq!(Error::from(-1), Error::DeviceNotFound);
    assert_eq!(Error::from(-30), Error::InvalidValue);
    assert_eq!(Error::from(-32), Error::InvalidPlatform);
    assert_eq!(Error::from(-2), Error::Unknown);
    assert_eq!(Error::from(-31), Error::Unknown);
    assert_eq!(Error::from(1), Error::Unknown);
    assert_eq!(Error::from(i32::MIN), Error::Unknown);
    assert_eq!(Error::from(i32::MAX), Error::Unknown);
}

#[test]
fn descriptions_are_fixed() {
    assert_eq!(Error::Unknown.description(), "An unknown error occurred.");
    assert_eq!(
        Error::Success.description(),
        "The operation completed successfully."
    );
    assert_eq!(
        Error::DeviceNotFound.description(),
        "No devices matching the requested type were found."
    );
    assert_eq!(
        Error::InvalidValue.description(),
        "An invalid value was passed as parameter."
    );
    assert_eq!(
        Error::InvalidPlatform.description(),
        "An invalid platform ID was passed as parameter."
    );
    assert_eq!(
        Error::InvalidEncoding.description(),
        "The native layer returned malformed text."
    );
    assert_eq!(
        Error::NoPlatform.description(),
        "No OpenCL platform is available."
    );
}
