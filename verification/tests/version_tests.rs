use license_chaser::version::{format_version, parse_version, HoudiniVersion, VersionParseError};

#[test]
fn parses_two_part_version() {
    let v = parse_version("20.5").unwrap();
    assert_eq!(v, HoudiniVersion { major: 20, minor: 5 });
}

#[test]
fn parse_then_reformat_preserves_values() {
    for s in ["20.5", "0.0", "255.255", "19.0", "1.99"] {
        let v = parse_version(s).unwrap();
        let formatted = format_version(&v);
        assert_eq!(formatted, s);
        let reparsed = parse_version(&formatted).unwrap();
        assert_eq!(reparsed, v);
    }
}

#[test]
fn leading_zeros_parse_but_reformat_canonically() {
    let v = parse_version("007.05").unwrap();
    assert_eq!(v, HoudiniVersion { major: 7, minor: 5 });
    assert_eq!(format_version(&v), "7.5");
}

#[test]
fn missing_separator_fails() {
    assert_eq!(parse_version("20"), Err(VersionParseError::NoSeparator));
    assert_eq!(parse_version(""), Err(VersionParseError::NoSeparator));
}

#[test]
fn non_numeric_major_fails() {
    assert_eq!(parse_version("a.5"), Err(VersionParseError::InvalidMajor));
    assert_eq!(parse_version(".5"), Err(VersionParseError::InvalidMajor));
    assert_eq!(parse_version("1x.5"), Err(VersionParseError::InvalidMajor));
}

#[test]
fn non_numeric_minor_fails() {
    assert_eq!(parse_version("20."), Err(VersionParseError::InvalidMinor));
    assert_eq!(parse_version("20.b"), Err(VersionParseError::InvalidMinor));
    assert_eq!(parse_version("1.2.3"), Err(VersionParseError::InvalidMinor));
}

#[test]
fn oversized_components_fail_instead_of_truncating() {
    assert_eq!(parse_version("256.0"), Err(VersionParseError::InvalidMajor));
    assert_eq!(parse_version("0.256"), Err(VersionParseError::InvalidMinor));
    assert_eq!(
        parse_version("99999999999999999999.0"),
        Err(VersionParseError::InvalidMajor)
    );
    assert_eq!(parse_version("255.255").unwrap(), HoudiniVersion { major: 255, minor: 255 });
}

#[test]
fn sign_and_space_are_not_digits() {
    assert_eq!(parse_version("+2.5"), Err(VersionParseError::InvalidMajor));
    assert_eq!(parse_version(" 2.5"), Err(VersionParseError::InvalidMajor));
    assert_eq!(parse_version("2.-5"), Err(VersionParseError::InvalidMinor));
}

#[test]
fn splits_on_first_dot_only() {
    // "20.5.1" splits into "20" and "5.1"; the minor half is not a number.
    assert_eq!(parse_version("20.5.1"), Err(VersionParseError::InvalidMinor));
}
