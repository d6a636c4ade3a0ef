use tpm2sh::number::{parse_u32, ParseIntError};

#[test]
fn parse_u32_accepts_variants() {
    assert_eq!(parse_u32(" 42 ").unwrap(), 42);
    assert_eq!(parse_u32("0x2a").unwrap(), 42);
    assert_eq!(parse_u32("0X2A").unwrap(), 42);
}

#[test]
fn parse_u32_limits() {
    assert_eq!(parse_u32("4294967295"), Ok(u32::MAX));
    assert_eq!(parse_u32("4294967296"), Err(ParseIntError::PosOverflow));
    assert_eq!(parse_u32("0xffffffff"), Ok(u32::MAX));
    assert_eq!(parse_u32("0x100000000"), Err(ParseIntError::PosOverflow));
    assert_eq!(parse_u32("0"), Ok(0));
}

#[test]
fn parse_u32_errors() {
    assert_eq!(parse_u32(""), Err(ParseIntError::Empty));
    assert_eq!(parse_u32("   "), Err(ParseIntError::Empty));
    assert_eq!(parse_u32("0x"), Err(ParseIntError::Empty));
    assert_eq!(parse_u32("+"), Err(ParseIntError::InvalidDigit));
    assert_eq!(parse_u32("-1"), Err(ParseIntError::InvalidDigit));
    assert_eq!(parse_u32("12a"), Err(ParseIntError::InvalidDigit));
    assert_eq!(parse_u32("1 2"), Err(ParseIntError::InvalidDigit));
    // The first overflowing digit comes before the bad character.
    assert_eq!(parse_u32("99999999999x"), Err(ParseIntError::PosOverflow));
}

#[test]
fn parse_u32_sign_and_white_space() {
    assert_eq!(parse_u32("+17"), Ok(17));
    assert_eq!(parse_u32("0x+1f"), Ok(31));
    assert_eq!(parse_u32("\t\n 7\r\n"), Ok(7));
    assert_eq!(parse_u32("\u{a0}8\u{3000}"), Ok(8));
}

#[test]
fn parse_u32_matches_the_standard_library() {
    for s in ["0", "1", "42", "+5", "-5", "", "+", "4294967295", "4294967296", "x", "0x1", "007"] {
        let ours = parse_u32(s);
        let std_result = s.trim().parse::<u32>();
        if !s.trim().starts_with("0x") {
            assert_eq!(ours.is_ok(), std_result.is_ok(), "{s}");
            if let (Ok(a), Ok(b)) = (ours, std_result) {
                assert_eq!(a, b);
            }
        }
    }
}

#[test]
fn parse_error_messages() {
    assert_eq!(ParseIntError::Empty.message(), "".parse::<u32>().unwrap_err().to_string());
    assert_eq!(ParseIntError::InvalidDigit.message(), "a".parse::<u32>().unwrap_err().to_string());
    assert_eq!(
        ParseIntError::PosOverflow.message(),
        "4294967296".parse::<u32>().unwrap_err().to_string()
    );
}
