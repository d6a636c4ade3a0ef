use tpm2sh::data::alg::TpmAlgId;
use tpm2sh::data::cc::TpmCc;
use tpm2sh::data::pcr::{TpmsPcrSelect, TpmsPcrSelection};
use tpm2sh::data::rc::{TpmRc, TpmRcBase};
use tpm2sh::data::attr::TpmaSession;
use tpm2sh::device::{build_command_buffer, execute_response, DeviceError, ReadStep, ResponseReader};
use tpm2sh::frame::auth::TpmsAuthCommand;
use tpm2sh::frame::marshal::TpmCommandBody;
use tpm2sh::frame::parse::{tpm_parse_response, TpmErrorKind};
use tpm2sh::frame::unmarshal::tpm_unmarshal_response;
use tpm2sh::pcr::{pcr_bank_list, sort_algs, PcrBankError};

#[test]
fn reader_completes_a_response_in_pieces() {
    let frame = [0x80, 0x01, 0, 0, 0, 12, 0, 0, 0, 0, 0xaa, 0xbb];
    let mut r = ResponseReader::new();
    assert_eq!(r.check(), ReadStep::Continue);
    assert_eq!(r.on_data(&frame[..4]), ReadStep::Continue);
    assert_eq!(r.on_end(), ReadStep::UnexpectedEof);
    assert_eq!(r.on_data(&frame[4..11]), ReadStep::Continue);
    assert_eq!(r.on_data(&frame[11..]), ReadStep::Done);
    assert_eq!(r.on_end(), ReadStep::Done);
    assert_eq!(r.into_bytes(), frame.to_vec());
}

#[test]
fn reader_refuses_bad_sizes() {
    let mut r = ResponseReader::new();
    assert_eq!(r.on_data(&[0x80, 0x01, 0, 0, 0, 9, 0, 0, 0, 0]), ReadStep::InvalidResponse);
    let mut r = ResponseReader::new();
    assert_eq!(r.on_data(&[0x80, 0x01, 0, 0, 0x10, 1, 0, 0, 0, 0]), ReadStep::InvalidResponse);
    let mut r = ResponseReader::new();
    assert_eq!(r.on_data(&[0x80, 0x01, 0, 0, 0, 10, 0, 0, 0, 0, 1]), ReadStep::InvalidResponse);
    let mut r = ResponseReader::new();
    assert_eq!(r.on_data(&[0x80, 0x01, 0, 0, 0, 10, 0, 0, 0, 0]), ReadStep::Done);
}

#[test]
fn parse_response_orders_its_checks() {
    let ok = [0x80, 0x01, 0, 0, 0, 12, 0, 0, 0, 0, 0xaa, 0xbb];
    let (body, sessions) = tpm_parse_response(TpmCc::GetRandom, &ok).unwrap().unwrap();
    assert_eq!(body.parameters, vec![0xaa, 0xbb]);
    assert!(sessions.is_empty());
    // An unsuccessful response with an undefined tag: the message parser
    // answers the code, the frame parser refuses the tag.
    let odd_tag = [0x12, 0x34, 0, 0, 0, 10, 0, 0, 0x09, 0x22];
    assert_eq!(tpm_parse_response(TpmCc::GetRandom, &odd_tag), Ok(Err(TpmRc::Warn(TpmRcBase::Retry))));
    assert!(tpm_unmarshal_response(TpmCc::GetRandom, &odd_tag).is_err());
    assert_eq!(tpm_parse_response(TpmCc::GetRandom, &ok[..11]), Err(TpmErrorKind::ParseUnderflow));
    let bad_rc = [0x80, 0x01, 0, 0, 0, 10, 0, 0, 0, 0x7f];
    assert_eq!(tpm_parse_response(TpmCc::GetRandom, &bad_rc), Err(TpmErrorKind::NotDiscriminant("TpmRc", 0x7f)));
}

fn bank(hash: TpmAlgId, mask: &[u8]) -> TpmsPcrSelection {
    TpmsPcrSelection { hash, pcr_select: TpmsPcrSelect::try_from_slice(mask).unwrap() }
}

#[test]
fn bank_list() {
    let pcrs = vec![
        bank(TpmAlgId::Sha384, &[0xff, 0xff, 0xff]),
        bank(TpmAlgId::Sha1, &[0x00, 0x00, 0x00]),
        bank(TpmAlgId::Sha256, &[0xff, 0xff, 0xff]),
    ];
    let (algs, select) = pcr_bank_list(&pcrs).unwrap();
    assert_eq!(algs, vec![TpmAlgId::Sha256, TpmAlgId::Sha384]);
    assert_eq!(select.as_slice(), &[0xff, 0xff, 0xff]);
    assert_eq!(pcr_bank_list(&[]).unwrap_err(), PcrBankError::PcrBanksNotAvailable);
    assert_eq!(pcr_bank_list(&[bank(TpmAlgId::Sha1, &[0, 0, 0])]).unwrap_err(), PcrBankError::PcrBanksNotAvailable);
    let mismatch = vec![bank(TpmAlgId::Sha1, &[0xff, 0, 0]), bank(TpmAlgId::Sha256, &[0xff, 0xff, 0])];
    assert_eq!(pcr_bank_list(&mismatch).unwrap_err(), PcrBankError::PcrBankSelectionMismatch);
}

#[test]
fn algorithms_sort_by_identifier() {
    let v = vec![TpmAlgId::Sha512, TpmAlgId::Sha1, TpmAlgId::Sm3_256, TpmAlgId::Sha256, TpmAlgId::Sha1];
    assert_eq!(sort_algs(&v), vec![TpmAlgId::Sha1, TpmAlgId::Sha1, TpmAlgId::Sha256, TpmAlgId::Sha512, TpmAlgId::Sm3_256]);
}

#[test]
fn command_buffer_tags_by_sessions() {
    let body = TpmCommandBody { cc: TpmCc::Startup, handles: vec![], parameters: vec![0x00, 0x00] };
    assert_eq!(
        build_command_buffer(&body, &[]).unwrap(),
        vec![0x80, 0x01, 0, 0, 0, 12, 0, 0, 0x01, 0x44, 0, 0]
    );
    let pw = TpmsAuthCommand {
        session_handle: 0x4000_0009,
        nonce: vec![],
        session_attributes: TpmaSession(0),
        hmac: vec![],
    };
    let framed = build_command_buffer(&body, &[pw]).unwrap();
    assert_eq!(
        framed,
        vec![0x80, 0x02, 0, 0, 0, 25, 0, 0, 0x01, 0x44, 0, 0, 0, 9, 0x40, 0, 0, 9, 0, 0, 0, 0, 0, 0, 0]
    );
    let big = TpmCommandBody { cc: TpmCc::Startup, handles: vec![], parameters: vec![0; 5000] };
    assert!(matches!(build_command_buffer(&big, &[]), Err(DeviceError::TpmProtocol(_))));
}

#[test]
fn response_maps_to_result() {
    let ok = [0x80, 0x01, 0, 0, 0, 12, 0, 0, 0, 0, 0xaa, 0xbb];
    let (body, sessions) = execute_response(TpmCc::GetRandom, &ok).unwrap();
    assert_eq!(body.parameters, vec![0xaa, 0xbb]);
    assert!(sessions.is_empty());
    let fail = [0x80, 0x01, 0, 0, 0, 10, 0, 0, 0x01, 0x01];
    assert_eq!(
        execute_response(TpmCc::GetRandom, &fail),
        Err(DeviceError::TpmRc(TpmRc::try_from_u32(0x101).unwrap()))
    );
    assert_eq!(
        execute_response(TpmCc::GetRandom, &ok[..11]),
        Err(DeviceError::TpmParse(TpmErrorKind::ParseUnderflow))
    );
}
