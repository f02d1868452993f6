use uuid_cli::{parse_format, parse_version, Args, Format, Version};

#[test]
fn parse_version_accepts_names_and_numbers() {
    assert_eq!(parse_version("v1"), Ok(Version::V1));
    assert_eq!(parse_version("1"), Ok(Version::V1));
    assert_eq!(parse_version("v4"), Ok(Version::V4));
    assert_eq!(parse_version("4"), Ok(Version::V4));
    assert_eq!(parse_version("v7"), Ok(Version::V7));
    assert_eq!(parse_version("7"), Ok(Version::V7));
}

#[test]
fn parse_version_ignores_case() {
    assert_eq!(parse_version("V1"), Ok(Version::V1));
    assert_eq!(parse_version("V7"), Ok(Version::V7));
}

#[test]
fn parse_version_rejects_unknown() {
    assert_eq!(parse_version("v2"), Err("invalid version"));
    assert_eq!(parse_version(""), Err("invalid version"));
    assert_eq!(parse_version("v44"), Err("invalid version"));
    assert_eq!(parse_version(" v4"), Err("invalid version"));
}

#[test]
fn parse_format_accepts_names() {
    assert_eq!(parse_format("normal"), Ok(Format::Normal));
    assert_eq!(parse_format("hex"), Ok(Format::Hex));
    assert_eq!(parse_format("urn"), Ok(Format::Urn));
    assert_eq!(parse_format("int"), Ok(Format::Integer));
}

#[test]
fn parse_format_ignores_case() {
    assert_eq!(parse_format("HEX"), Ok(Format::Hex));
    assert_eq!(parse_format("Normal"), Ok(Format::Normal));
    assert_eq!(parse_format("uRn"), Ok(Format::Urn));
    assert_eq!(parse_format("INT"), Ok(Format::Integer));
}

#[test]
fn parse_format_rejects_unknown() {
    assert_eq!(parse_format("integer"), Err("invalid format"));
    assert_eq!(parse_format(""), Err("invalid format"));
    assert_eq!(parse_format("simple"), Err("invalid format"));
}

#[test]
fn char_lengths() {
    assert_eq!(Format::Normal.char_length(), 36);
    assert_eq!(Format::Hex.char_length(), 32);
    assert_eq!(Format::Urn.char_length(), 45);
    assert_eq!(Format::Integer.char_length(), 39);
}

#[test]
fn defaults_fill_missing_options() {
    let a = Args::with_defaults(None, None, None);
    assert_eq!(a, Args { format: Format::Hex, version: Version::V4, amount: 10 });
}

#[test]
fn given_options_are_kept() {
    let a = Args::with_defaults(Some(Version::V7), Some(Format::Urn), Some(56));
    assert_eq!(a, Args { format: Format::Urn, version: Version::V7, amount: 56 });
    let b = Args::with_defaults(Some(Version::V1), None, Some(0));
    assert_eq!(b, Args { format: Format::Hex, version: Version::V1, amount: 0 });
}
