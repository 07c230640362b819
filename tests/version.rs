use allay::error::Error;
use allay::version::{version_as_array, version_as_array_or_wild, BaseGameVersion};

#[test]
fn version_triple_parses() {
    assert_eq!(version_as_array("1.20.3"), Ok((1, 20, 3)));
    assert_eq!(version_as_array("0.0.0"), Ok((0, 0, 0)));
    assert_eq!(version_as_array("1.2.3.4"), Ok((1, 2, 3)));
    assert_eq!(version_as_array("+1.2.3"), Ok((1, 2, 3)));
}

#[test]
fn version_triple_missing_component() {
    assert_eq!(version_as_array("1.20"), Err(Error::VersionMissingNumber));
    assert_eq!(version_as_array("1"), Err(Error::VersionMissingNumber));
}

#[test]
fn version_triple_not_numeric() {
    assert_eq!(version_as_array("a.b.c"), Err(Error::VersionNotANumber));
    assert_eq!(version_as_array(""), Err(Error::VersionNotANumber));
    assert_eq!(version_as_array("1..3"), Err(Error::VersionNotANumber));
    assert_eq!(version_as_array("1.2.x"), Err(Error::VersionNotANumber));
    assert_eq!(version_as_array("1.2.3.x"), Err(Error::VersionNotANumber));
    assert_eq!(version_as_array("1.2.99999999999999999999999"), Err(Error::VersionNotANumber));
}

#[test]
fn base_game_version_wild() {
    assert_eq!(version_as_array_or_wild("*"), Ok(BaseGameVersion::Wild));
    assert_eq!(version_as_array_or_wild("1.19.0"), Ok(BaseGameVersion::Version(1, 19, 0)));
    assert_eq!(version_as_array_or_wild("**"), Err(Error::InvalidBaseGameVersion));
}
