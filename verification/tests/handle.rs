use std::str::FromStr;
use tpm2sh::data::ht::TpmHt;
use tpm2sh::handle::{Handle, HandleError};

#[test]
fn parse_exact_handle() {
    let h = Handle::from_str("80000001").unwrap();
    assert_eq!(h.value(), Some(0x8000_0001));
}

#[test]
fn parse_wildcard_handle() {
    let h = Handle::from_str("*").unwrap();
    assert!(h.value().is_none());
    assert_eq!(h.to_string(), "*");
}

#[test]
fn reject_multiple_asterisks() {
    let err = Handle::from_str("80**0001").unwrap_err();
    assert!(matches!(err, HandleError::HandleHasTooManyAsterisks));
}

#[test]
fn reject_invalid_characters() {
    let err = Handle::from_str("8000000g").unwrap_err();
    assert!(matches!(err, HandleError::InvalidHandleCharacter('g')));
}

#[test]
fn reject_too_short() {
    let err = Handle::from_str("123").unwrap_err();
    assert!(matches!(err, HandleError::HandleTooShort));
}

#[test]
fn pattern_display_uses_question_marks() {
    let h = Handle::from_str("80??0001").unwrap();
    assert_eq!(h.to_string(), "80??0001");
}

#[test]
fn reject_too_long() {
    let err = Handle::from_str("800000011").unwrap_err();
    assert!(matches!(err, HandleError::HandleTooLong));
    let err = Handle::from_str("80*000000001").unwrap_err();
    assert!(matches!(err, HandleError::HandleTooLong));
}

#[test]
fn non_alphanumeric_character_is_shown_as_question_mark() {
    let err = Handle::from_str("8000000-").unwrap_err();
    assert!(matches!(err, HandleError::InvalidHandleCharacter('?')));
}

#[test]
fn multibyte_characters_count_by_bytes() {
    // Seven characters, eight bytes: the length check passes and the
    // character is refused.
    let err = Handle::from_str("800000\u{e9}").unwrap_err();
    assert!(matches!(err, HandleError::InvalidHandleCharacter('\u{e9}')));
    // Eight characters, nine bytes.
    let err = Handle::from_str("8000000\u{e9}").unwrap_err();
    assert!(matches!(err, HandleError::HandleTooLong));
}

#[test]
fn asterisk_pads_the_middle() {
    let h = Handle::from_str("81*01").unwrap();
    assert!(h.value().is_none());
    assert_eq!(h.to_string(), "81????01");
    assert!(h.matches(0x8100_0001));
    assert!(h.matches(0x81ab_cd01));
    assert!(!h.matches(0x8000_0001));
    assert!(!h.matches(0x8100_0002));
}

#[test]
fn leading_asterisk_keeps_low_nibbles() {
    let h = Handle::from_str("*0001").unwrap();
    assert_eq!(h.to_string(), "????0001");
    assert!(h.matches(0x1230_0001));
    let h = Handle::from_str("8*").unwrap();
    assert_eq!(h.to_string(), "8???????");
    assert!(h.matches(0x8fff_ffff));
    assert!(!h.matches(0x7fff_ffff));
}

#[test]
fn upper_case_digits_display_in_lower_case() {
    let h = Handle::from_str("81ABCDEF").unwrap();
    assert_eq!(h.value(), Some(0x81ab_cdef));
    assert_eq!(h.to_string(), "81abcdef");
}

#[test]
fn new_handle_matches_only_itself() {
    let h = Handle::new(0x4000_0001);
    assert_eq!(h.value(), Some(0x4000_0001));
    assert!(h.matches(0x4000_0001));
    assert!(!h.matches(0x4000_0002));
    assert_eq!(h.to_string(), "40000001");
}

#[test]
fn wildcard_matches_every_handle() {
    let h = Handle::from_str("*").unwrap();
    assert!(h.matches(0));
    assert!(h.matches(0xffff_ffff));
}

#[test]
fn handle_type_of_a_handle() {
    let h = Handle::new(0x8100_0001);
    assert_eq!(TpmHt::try_from_handle(h), Ok(TpmHt::Persistent));
    let h = Handle::new(0x0300_0000);
    assert_eq!(TpmHt::try_from_handle(h), Ok(TpmHt::PolicySession));
    let h = Handle::new(0x7700_0000);
    assert_eq!(TpmHt::try_from_handle(h), Err(HandleError::InvalidHandleType(0x77)));
    let h = Handle::from_str("81??0001").unwrap();
    assert_eq!(TpmHt::try_from_handle(h), Err(HandleError::HandlePatternNotAllowed));
}

#[test]
fn handle_error_texts() {
    assert_eq!(HandleError::HandleHasTooManyAsterisks.to_string(), "handle has more than one asterisk");
    assert_eq!(HandleError::HandlePatternNotAllowed.to_string(), "handle pattern is not allowed");
    assert_eq!(HandleError::HandleTooShort.to_string(), "handle is less than eight characters");
    assert_eq!(HandleError::HandleTooLong.to_string(), "handle has more than eight characters");
    assert_eq!(HandleError::InvalidHandleCharacter('g').to_string(), "invalid handle character: g");
    assert_eq!(HandleError::InvalidHandleType(0x0b).to_string(), "invalid handle type: 0x0b");
    assert_eq!(HandleError::InvalidHandleType(0xc1).to_string(), "invalid handle type: 0xc1");
}
