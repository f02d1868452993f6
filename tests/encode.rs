use uuid_cli::{format_uuid, render, Format};

const SAMPLE: u128 = 0x67e5504410b1426f9247bb680e5fe0c8;

#[test]
fn hex_encoding() {
    assert_eq!(format_uuid(SAMPLE, Format::Hex), "67e5504410b1426f9247bb680e5fe0c8");
}

#[test]
fn normal_encoding() {
    assert_eq!(format_uuid(SAMPLE, Format::Normal), "67e55044-10b1-426f-9247-bb680e5fe0c8");
}

#[test]
fn urn_encoding() {
    assert_eq!(
        format_uuid(SAMPLE, Format::Urn),
        "urn:uuid:67e55044-10b1-426f-9247-bb680e5fe0c8"
    );
}

#[test]
fn integer_encoding() {
    assert_eq!(
        format_uuid(SAMPLE, Format::Integer),
        "138101147531900207301164854559698313416"
    );
}

#[test]
fn nil_in_every_encoding() {
    assert_eq!(format_uuid(0, Format::Hex), "00000000000000000000000000000000");
    assert_eq!(format_uuid(0, Format::Normal), "00000000-0000-0000-0000-000000000000");
    assert_eq!(format_uuid(0, Format::Urn), "urn:uuid:00000000-0000-0000-0000-000000000000");
    assert_eq!(format_uuid(0, Format::Integer), "0");
}

#[test]
fn largest_value_reaches_char_length() {
    let m = u128::MAX;
    assert_eq!(format_uuid(m, Format::Hex), "ffffffffffffffffffffffffffffffff");
    assert_eq!(format_uuid(m, Format::Integer), "340282366920938463463374607431768211455");
    for f in [Format::Hex, Format::Normal, Format::Urn, Format::Integer] {
        assert_eq!(format_uuid(m, f).len(), f.char_length());
    }
}

#[test]
fn encodings_never_exceed_char_length() {
    for u in [0u128, 1, 9, 10, SAMPLE, u128::MAX / 3, u128::MAX] {
        for f in [Format::Hex, Format::Normal, Format::Urn, Format::Integer] {
            assert!(format_uuid(u, f).len() <= f.char_length());
        }
    }
}

#[test]
fn render_writes_one_line_each() {
    let us = vec![SAMPLE, 0];
    assert_eq!(
        render(&us, Format::Hex),
        "67e5504410b1426f9247bb680e5fe0c8\n00000000000000000000000000000000\n"
    );
    assert_eq!(render(&us, Format::Integer), "138101147531900207301164854559698313416\n0\n");
}

#[test]
fn render_of_nothing_is_empty() {
    assert_eq!(render(&Vec::new(), Format::Urn), "");
}

#[test]
fn fixed_width_run_length() {
    let us = vec![1u128, 2, 3, 4];
    for f in [Format::Hex, Format::Normal, Format::Urn] {
        assert_eq!(render(&us, f).len(), us.len() * (f.char_length() + 1));
    }
    assert!(render(&us, Format::Integer).len() <= us.len() * (Format::Integer.char_length() + 1));
}
