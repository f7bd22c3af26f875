use hex_rgb::{hex_digit, hex_pair, HexDigitError, Rgb, RgbError};

#[test]
fn parses_digit_pairs_in_order() {
    assert_eq!(Rgb::try_from("#00cc66").unwrap(), Rgb(0, 204, 102));
    assert_eq!(Rgb::try_from("#000000").unwrap(), Rgb(0, 0, 0));
    assert_eq!(Rgb::try_from("#ffffff").unwrap(), Rgb(255, 255, 255));
    assert_eq!(Rgb::try_from("#a0b1c2").unwrap(), Rgb(160, 177, 194));
    assert_eq!(Rgb::try_from("#123456").unwrap(), Rgb(18, 52, 86));
}

#[test]
fn accepts_uppercase_and_mixed_case_digits() {
    assert_eq!(Rgb::try_from("#FFFFFF").unwrap(), Rgb(255, 255, 255));
    assert_eq!(Rgb::try_from("#A0b1C2").unwrap(), Rgb(160, 177, 194));
    assert_eq!(Rgb::try_from("#00CC66").unwrap(), Rgb(0, 204, 102));
}

#[test]
fn missing_hash_kind() {
    assert!(matches!(Rgb::try_from("001100"), Err(RgbError::MissingHash)));
    assert!(matches!(Rgb::try_from(""), Err(RgbError::MissingHash)));
    assert!(matches!(Rgb::try_from("00cc66x"), Err(RgbError::MissingHash)));
}

#[test]
fn wrong_length_kind() {
    assert!(matches!(
        Rgb::try_from("#0011f"),
        Err(RgbError::ColorComponentError)
    ));
    assert!(matches!(
        Rgb::try_from("#0011ffa"),
        Err(RgbError::ColorComponentError)
    ));
    assert!(matches!(
        Rgb::try_from("#"),
        Err(RgbError::ColorComponentError)
    ));
}

#[test]
fn invalid_digit_kind() {
    assert!(matches!(
        Rgb::try_from("#0011yy"),
        Err(RgbError::ParseError(HexDigitError))
    ));
    assert!(matches!(
        Rgb::try_from("#z0cc66"),
        Err(RgbError::ParseError(HexDigitError))
    ));
    assert!(matches!(
        Rgb::try_from("#00cc6z"),
        Err(RgbError::ParseError(HexDigitError))
    ));
}

#[test]
fn marker_check_precedes_length_check() {
    // Both the marker and the length are wrong: the marker check runs first.
    assert!(matches!(Rgb::try_from("00cc"), Err(RgbError::MissingHash)));
    assert!(matches!(
        Rgb::try_from("0011ffa"),
        Err(RgbError::MissingHash)
    ));
}

#[test]
fn length_check_precedes_digit_check() {
    // Both the length and the digits are wrong: the length check runs first.
    assert!(matches!(
        Rgb::try_from("#yyyyy"),
        Err(RgbError::ColorComponentError)
    ));
}

#[test]
fn length_is_counted_in_characters() {
    // Seven bytes but six characters: the length check fails, not slicing.
    assert!(matches!(
        Rgb::try_from("#\u{e9}1122"),
        Err(RgbError::ColorComponentError)
    ));
    // Seven characters, one of them not a hex digit.
    assert!(matches!(
        Rgb::try_from("#\u{e9}11223"),
        Err(RgbError::ParseError(HexDigitError))
    ));
}

#[test]
fn formats_canonical_lowercase_hex() {
    assert_eq!(Rgb(0, 204, 102).to_hex_string(), "#00cc66");
    assert_eq!(Rgb(0, 0, 0).to_hex_string(), "#000000");
    assert_eq!(Rgb(255, 255, 255).to_hex_string(), "#ffffff");
    assert_eq!(Rgb(16, 1, 240).to_hex_string(), "#1001f0");
}

#[test]
fn formatting_then_parsing_round_trips() {
    let colors = vec![
        Rgb(0, 0, 0),
        Rgb(255, 255, 255),
        Rgb(0, 204, 102),
        Rgb(1, 2, 3),
        Rgb(16, 32, 64),
        Rgb(254, 128, 15),
    ];
    for c in colors {
        let s = c.to_hex_string();
        assert_eq!(s.len(), 7);
        assert_eq!(Rgb::try_from(&s), Ok(c));
    }
}

#[test]
fn single_digit_parsing() {
    assert_eq!(hex_digit('0'), Some(0));
    assert_eq!(hex_digit('9'), Some(9));
    assert_eq!(hex_digit('a'), Some(10));
    assert_eq!(hex_digit('f'), Some(15));
    assert_eq!(hex_digit('A'), Some(10));
    assert_eq!(hex_digit('F'), Some(15));
    assert_eq!(hex_digit('g'), None);
    assert_eq!(hex_digit('G'), None);
    assert_eq!(hex_digit('#'), None);
    assert_eq!(hex_digit(' '), None);
}

#[test]
fn digit_pair_parsing() {
    assert_eq!(hex_pair('0', '0'), Ok(0));
    assert_eq!(hex_pair('c', 'c'), Ok(204));
    assert_eq!(hex_pair('6', '6'), Ok(102));
    assert_eq!(hex_pair('f', 'f'), Ok(255));
    assert_eq!(hex_pair('F', 'F'), Ok(255));
    assert_eq!(hex_pair('y', 'y'), Err(HexDigitError));
    assert_eq!(hex_pair('0', 'y'), Err(HexDigitError));
    assert_eq!(hex_pair('y', '0'), Err(HexDigitError));
}

#[test]
fn wrapping_a_digit_failure() {
    assert_eq!(
        RgbError::from(HexDigitError),
        RgbError::ParseError(HexDigitError)
    );
}

#[test]
fn error_messages_are_fixed_and_distinct() {
    assert_eq!(
        RgbError::MissingHash.message(),
        "hex colors must begin with a hash (#)"
    );
    assert_eq!(
        RgbError::ColorComponentError.message(),
        "wrong number of hex digits"
    );
    assert_eq!(
        RgbError::ParseError(HexDigitError).message(),
        "failed to parse hex digit: invalid digit found in string"
    );
    assert_eq!(HexDigitError.message(), "invalid digit found in string");
}
