use glfw_rs::Error;
use glfw_rs::parse_params;

#[test]
fn decode_each_defined_code() {
    assert_eq!(Error::decode(0x0001_0001), Some(Error::NotInitialized));
    assert_eq!(Error::decode(0x0001_0002), Some(Error::NoCurrentContext));
    assert_eq!(Error::decode(0x0001_0003), Some(Error::InvalidEnum));
    assert_eq!(Error::decode(0x0001_0004), Some(Error::InvalidValue));
    assert_eq!(Error::decode(0x0001_0005), Some(Error::OutOfMemory));
    assert_eq!(Error::decode(0x0001_0006), Some(Error::ApiUnavailable));
    assert_eq!(Error::decode(0x0001_0007), Some(Error::VersionUnavailable));
    assert_eq!(Error::decode(0x0001_0008), Some(Error::PlatformError));
    assert_eq!(Error::decode(0x0001_0009), Some(Error::FormatUnavailable));
}

#[test]
fn decode_undefined_codes_fail() {
    assert_eq!(Error::decode(0), None);
    assert_eq!(Error::decode(-1), None);
    assert_eq!(Error::decode(0x0001_0000), None);
    assert_eq!(Error::decode(0x0001_000A), None);
    assert_eq!(Error::decode(i32::MAX), None);
    assert_eq!(Error::decode(i32::MIN), None);
}

#[test]
fn code_round_trip() {
    let all = [
        Error::NotInitialized,
        Error::NoCurrentContext,
        Error::InvalidEnum,
        Error::InvalidValue,
        Error::OutOfMemory,
        Error::ApiUnavailable,
        Error::VersionUnavailable,
        Error::PlatformError,
        Error::FormatUnavailable,
    ];
    for e in all {
        assert_eq!(Error::decode(e.code()), Some(e));
    }
}

#[test]
fn parse_params_known_code() {
    let r = parse_params(0x0001_0005, String::from("allocation failed"));
    assert_eq!(r, Some((Error::OutOfMemory, String::from("allocation failed"))));
}

#[test]
fn parse_params_unknown_code_is_decode_failure() {
    let r = parse_params(42, String::from("whatever"));
    assert_eq!(r, None);
}
