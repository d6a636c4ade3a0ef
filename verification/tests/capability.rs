use tpm2sh::capability::{handle_page_step, next_capability_property, parse_handle_page};
use tpm2sh::data::pcr::TpmsPcrSelect;
use tpm2sh::error::TpmError;

#[test]
fn pagination_follows_more_data() {
    assert_eq!(next_capability_property(true, Some(5)), Some(5));
    assert_eq!(next_capability_property(false, Some(5)), None);
    assert_eq!(next_capability_property(true, None), None);
    let mut all = vec![1u32];
    assert_eq!(handle_page_step(&mut all, true, &[0x8100_0000, 0x8100_0002]), Some(0x8100_0003));
    assert_eq!(handle_page_step(&mut all, false, &[0x8100_0005]), None);
    assert_eq!(all, vec![1, 0x8100_0000, 0x8100_0002, 0x8100_0005]);
    assert_eq!(handle_page_step(&mut all, true, &[]), None);
}

#[test]
fn handle_pages_parse() {
    let page = vec![1, 0, 0, 0, 1, 0, 0, 0, 2, 0x81, 0, 0, 0, 0x81, 0, 0, 1];
    assert_eq!(parse_handle_page(&page), Ok((true, vec![0x8100_0000, 0x8100_0001])));
    assert!(matches!(parse_handle_page(&page[..16]), Err(TpmError::TooManyItems { .. })));
    let mut long = page.clone();
    long.push(0);
    assert!(matches!(parse_handle_page(&long), Err(TpmError::TrailingData { .. })));
    let mut bad = page.clone();
    bad[0] = 2;
    assert!(matches!(parse_handle_page(&bad), Err(TpmError::InvalidBoolean { .. })));
}

#[test]
fn pcr_select_default_is_new() {
    assert_eq!(TpmsPcrSelect::default(), TpmsPcrSelect::new());
}
