use tpm2sh::data::attr::TpmaSession;
use tpm2sh::data::cc::TpmCc;
use tpm2sh::data::rc::{TpmRc, TpmRcBase, TpmRcFmt1, TpmRcIndex};
use tpm2sh::data::st::TpmSt;
use tpm2sh::error::TpmError;
use tpm2sh::frame::auth::{TpmsAuthCommand, TpmsAuthResponse};
use tpm2sh::frame::marshal::{
    tpm_marshal_command, tpm_marshal_response, TpmCommandBody, TpmResponseBody, TpmWriter,
};
use tpm2sh::frame::parse::{tpm_parse_command, TpmErrorKind};
use tpm2sh::frame::unmarshal::{tpm_unmarshal_command, tpm_unmarshal_response};
use tpm2sh::frame::wire::{TpmCommand, TpmResponse};

fn session(handle: u32, nonce: &[u8], hmac: &[u8]) -> TpmsAuthCommand {
    TpmsAuthCommand {
        session_handle: handle,
        nonce: nonce.to_vec(),
        session_attributes: TpmaSession(0x01),
        hmac: hmac.to_vec(),
    }
}

fn marshal_command(body: &TpmCommandBody, tag: TpmSt, sessions: &[TpmsAuthCommand]) -> Vec<u8> {
    let mut writer = TpmWriter::new(4096);
    tpm_marshal_command(body, tag, sessions, &mut writer).unwrap();
    writer.as_bytes().to_vec()
}

#[test]
fn startup_command_bytes() {
    let body = TpmCommandBody { cc: TpmCc::Startup, handles: vec![], parameters: vec![0x00, 0x00] };
    let bytes = marshal_command(&body, TpmSt::NoSessions, &[]);
    assert_eq!(bytes, vec![0x80, 0x01, 0, 0, 0, 12, 0, 0, 0x01, 0x44, 0, 0]);
}

#[test]
fn command_roundtrip_without_sessions() {
    let body = TpmCommandBody { cc: TpmCc::PcrRead, handles: vec![], parameters: vec![1, 2, 3, 4] };
    let bytes = marshal_command(&body, TpmSt::NoSessions, &[]);
    let (handles, parsed, sessions) = tpm_unmarshal_command(&bytes).unwrap();
    assert!(handles.is_empty());
    assert_eq!(parsed, body);
    assert!(sessions.is_empty());
}

#[test]
fn command_roundtrip_with_sessions() {
    let body = TpmCommandBody {
        cc: TpmCc::PolicySecret,
        handles: vec![0x4000_000b, 0x0300_0000],
        parameters: vec![0xaa; 7],
    };
    let sessions = vec![session(0x4000_0009, &[], &[1, 2, 3]), session(0x0200_0001, &[9; 32], &[])];
    let bytes = marshal_command(&body, TpmSt::Sessions, &sessions);
    let (handles, parsed, parsed_sessions) = tpm_unmarshal_command(&bytes).unwrap();
    assert_eq!(handles, body.handles);
    assert_eq!(parsed, body);
    assert_eq!(parsed_sessions, sessions);
    let (handles2, parsed2, sessions2) = tpm_parse_command(&bytes).unwrap();
    assert_eq!(handles2, handles);
    assert_eq!(parsed2, parsed);
    assert_eq!(sessions2, parsed_sessions);
}

#[test]
fn no_sessions_tag_drops_sessions() {
    let body = TpmCommandBody { cc: TpmCc::Unseal, handles: vec![0x8000_0000], parameters: vec![] };
    let sessions = vec![session(0x4000_0009, &[], &[])];
    let bytes = marshal_command(&body, TpmSt::NoSessions, &sessions);
    assert_eq!(bytes.len(), 14);
    let (_, _, parsed_sessions) = tpm_unmarshal_command(&bytes).unwrap();
    assert!(parsed_sessions.is_empty());
}

#[test]
fn marshal_refuses_other_tags_and_small_writers() {
    let body = TpmCommandBody { cc: TpmCc::Startup, handles: vec![], parameters: vec![0, 0] };
    let mut writer = TpmWriter::new(4096);
    assert!(tpm_marshal_command(&body, TpmSt::Null, &[], &mut writer).is_err());
    assert!(writer.is_empty());
    let mut small = TpmWriter::new(11);
    assert!(matches!(
        tpm_marshal_command(&body, TpmSt::NoSessions, &[], &mut small),
        Err(TpmError::BufferOverflow { .. })
    ));
    assert!(small.is_empty());
}

#[test]
fn unmarshal_command_errors() {
    assert!(matches!(
        tpm_unmarshal_command(&[0x80, 0x01, 0, 0]),
        Err(TpmError::UnexpectedEnd { offset: 0, needed: 10, available: 4 })
    ));
    let mut bytes = vec![0x80, 0x01, 0, 0, 0, 12, 0, 0, 0x01, 0x44, 0, 0];
    bytes.push(0);
    assert!(matches!(tpm_unmarshal_command(&bytes), Err(TpmError::TrailingData { offset: 12, actual: 1 })));
    assert_eq!(tpm_parse_command(&bytes), Err(TpmErrorKind::TrailingData));
    let bad_tag = vec![0x12, 0x34, 0, 0, 0, 10, 0, 0, 0x01, 0x44];
    assert!(matches!(tpm_unmarshal_command(&bad_tag), Err(TpmError::InvalidTag { offset: 0, value: 0x1234 })));
    assert_eq!(tpm_parse_command(&bad_tag), Err(TpmErrorKind::NotDiscriminant("TpmSt", 0x1234)));
    let bad_cc = vec![0x80, 0x01, 0, 0, 0, 10, 0, 0, 0x09, 0x99];
    assert!(matches!(tpm_unmarshal_command(&bad_cc), Err(TpmError::InvalidCc { offset: 6, value: 0x999 })));
    assert_eq!(tpm_parse_command(&bad_cc), Err(TpmErrorKind::NotDiscriminant("TpmCc", 0x999)));
    let null_tag = vec![0x80, 0x00, 0, 0, 0, 10, 0, 0, 0x01, 0x44];
    assert_eq!(tpm_parse_command(&null_tag), Err(TpmErrorKind::InvalidValue));
    let short_handles = vec![0x80, 0x01, 0, 0, 0, 12, 0, 0, 0x01, 0x5e, 0, 0];
    assert_eq!(tpm_parse_command(&short_handles), Err(TpmErrorKind::ParseUnderflow));
}

#[test]
fn too_many_sessions_are_refused() {
    let body = TpmCommandBody { cc: TpmCc::GetRandom, handles: vec![], parameters: vec![0, 8] };
    let sessions = vec![session(1, &[], &[]); 4];
    let bytes = marshal_command(&body, TpmSt::Sessions, &sessions);
    assert!(matches!(tpm_unmarshal_command(&bytes), Err(TpmError::TooManyItems { limit: 3, actual: 4, .. })));
    assert_eq!(tpm_parse_command(&bytes), Err(TpmErrorKind::ParseCapacity));
}

#[test]
fn response_roundtrip() {
    let body = TpmResponseBody { cc: TpmCc::StartAuthSession, handles: vec![0x0300_0000], parameters: vec![0, 2, 7, 7] };
    let sessions = vec![TpmsAuthResponse { nonce: vec![5; 16], session_attributes: TpmaSession(1), hmac: vec![6; 32] }];
    let mut writer = TpmWriter::new(4096);
    tpm_marshal_response(&body, &sessions, TpmRc::Fmt0(TpmRcBase::Success), &mut writer).unwrap();
    let (parsed, parsed_sessions) = tpm_unmarshal_response(TpmCc::StartAuthSession, writer.as_bytes()).unwrap().unwrap();
    assert_eq!(parsed, body);
    assert_eq!(parsed_sessions, sessions);
}

#[test]
fn error_response_roundtrip() {
    let rc = TpmRc::Fmt1(TpmRcFmt1 { base: TpmRcBase::Value, index: Some(TpmRcIndex::Parameter(1)) });
    assert_eq!(rc.value(), 0x1c4);
    let body = TpmResponseBody { cc: TpmCc::Create, handles: vec![], parameters: vec![] };
    let mut writer = TpmWriter::new(4096);
    tpm_marshal_response(&body, &[], rc, &mut writer).unwrap();
    assert_eq!(writer.as_bytes(), &[0x80, 0x01, 0, 0, 0, 10, 0, 0, 0x01, 0xc4]);
    assert_eq!(tpm_unmarshal_response(TpmCc::Create, writer.as_bytes()), Ok(Err(rc)));
}

#[test]
fn response_code_decoding() {
    assert_eq!(TpmRc::try_from_u32(0), Ok(TpmRc::Fmt0(TpmRcBase::Success)));
    assert_eq!(TpmRc::try_from_u32(0x100), Ok(TpmRc::Fmt0(TpmRcBase::Initialize)));
    assert_eq!(TpmRc::try_from_u32(0x922), Ok(TpmRc::Warn(TpmRcBase::Retry)));
    assert_eq!(
        TpmRc::try_from_u32(0xa8e),
        Ok(TpmRc::Fmt1(TpmRcFmt1 { base: TpmRcBase::AuthFail, index: Some(TpmRcIndex::Session(2)) }))
    );
    // Both warning bits are set: the warning reading wins.
    assert_eq!(TpmRc::try_from_u32(0x98e), Ok(TpmRc::Warn(TpmRcBase::AuthFail)));
    assert_eq!(
        TpmRc::try_from_u32(0x18b),
        Ok(TpmRc::Fmt1(TpmRcFmt1 { base: TpmRcBase::Handle, index: Some(TpmRcIndex::Handle(1)) }))
    );
    assert_eq!(TpmRc::Fmt1(TpmRcFmt1 { base: TpmRcBase::AuthFail, index: Some(TpmRcIndex::Session(2)) }).value(), 0xa8e);
    assert_eq!(TpmRc::Warn(TpmRcBase::Retry).base(), TpmRcBase::Retry);
    assert!(TpmRc::try_from_u32(0x7f).is_err());
}

#[test]
fn command_wire_view() {
    let body = TpmCommandBody {
        cc: TpmCc::PolicySecret,
        handles: vec![0x4000_000b, 0x0300_0000],
        parameters: vec![1, 2, 3],
    };
    let sessions = vec![session(0x4000_0009, &[], &[])];
    let bytes = marshal_command(&body, TpmSt::Sessions, &sessions);
    let mut cmd = TpmCommand::cast(&bytes).unwrap();
    assert_eq!(cmd.tag(), Ok(TpmSt::Sessions));
    assert_eq!(cmd.size() as usize, bytes.len());
    assert_eq!(cmd.cc(), Ok(TpmCc::PolicySecret));
    assert_eq!(cmd.handles().unwrap(), &[0x40, 0, 0, 0x0b, 0x03, 0, 0, 0]);
    assert_eq!(cmd.parameters().unwrap(), &[1, 2, 3]);
    assert_eq!(cmd.auth_area().unwrap().len(), 9);
    assert_eq!(cmd.validate(), Ok(()));
    assert_eq!(cmd.len(), bytes.len());
    assert!(!cmd.is_empty());
    cmd.parameters_mut().unwrap()[0] = 9;
    assert_eq!(cmd.as_bytes()[cmd.len() - 3], 9);
    cmd.set_cc(TpmCc::PolicySigned).unwrap();
    assert_eq!(cmd.cc(), Ok(TpmCc::PolicySigned));
    cmd.set_tag(TpmSt::NoSessions);
    assert_eq!(cmd.tag(), Ok(TpmSt::NoSessions));
    let mut longer = bytes.clone();
    longer.extend_from_slice(&[0xee, 0xff]);
    let (prefix, rest) = TpmCommand::cast_prefix(&longer).unwrap();
    assert_eq!(prefix.as_bytes(), &bytes[..]);
    assert_eq!(rest, &[0xee, 0xff]);
    assert!(TpmCommand::cast(&longer).is_err());
}

#[test]
fn response_wire_view() {
    let frame = vec![0x80, 0x01, 0, 0, 0, 14, 0, 0, 0, 0, 1, 2, 3, 4];
    let mut rsp = TpmResponse::cast(&frame).unwrap();
    assert_eq!(rsp.tag(), Ok(TpmSt::NoSessions));
    assert_eq!(rsp.rc(), Ok(TpmRc::Fmt0(TpmRcBase::Success)));
    assert_eq!(rsp.body(), &[1, 2, 3, 4]);
    assert_eq!(rsp.validate(TpmCc::GetRandom), Ok(()));
    rsp.set_rc(TpmRc::Warn(TpmRcBase::Retry));
    assert_eq!(rsp.rc(), Ok(TpmRc::Warn(TpmRcBase::Retry)));
    rsp.body_mut()[0] = 0x55;
    assert_eq!(rsp.as_bytes()[10], 0x55);
    assert_eq!(rsp.len(), 14);
}

#[test]
fn undefined_tag_is_variant_not_available() {
    let buf = vec![0x80, 0x01, 0x00, 0x00, 0x00, 0x0C, 0x00, 0x00, 0x01, 0x7B, 0x00, 0x10];
    let mut cmd = TpmCommand::cast(&buf).unwrap();
    cmd.as_bytes_mut()[0] = 0;
    cmd.as_bytes_mut()[1] = 0;
    assert_eq!(cmd.tag(), Err(TpmError::VariantNotAvailable { offset: 0, value: 0 }));
    let frame = vec![0x80, 0x01, 0, 0, 0, 10, 0, 0, 0, 0];
    let mut rsp = TpmResponse::cast(&frame).unwrap();
    rsp.as_bytes_mut()[0] = 0;
    rsp.as_bytes_mut()[1] = 0;
    assert_eq!(rsp.tag(), Err(TpmError::VariantNotAvailable { offset: 0, value: 0 }));
    assert!(matches!(TpmCommand::cast(&[0, 0, 0, 0, 0, 0x0C, 0, 0, 1, 0x7B, 0, 0x10]), Err(TpmError::InvalidTag { .. })));
}

#[test]
fn sessionless_command_has_no_auth_area() {
    let buf = vec![0x80, 0x01, 0x00, 0x00, 0x00, 0x0C, 0x00, 0x00, 0x01, 0x7B, 0x00, 0x10];
    let mut cmd = TpmCommand::cast(&buf).unwrap();
    assert_eq!(cmd.auth_area(), Err(TpmError::InvalidTag { offset: 0, value: 0x8001 }));
    assert!(cmd.auth_area_mut().is_err());
    assert_eq!(cmd.parameters().unwrap(), &[0x00, 0x10]);
    assert_eq!(cmd.validate(), Ok(()));
}

fn be32(b: &[u8], i: usize) -> u32 {
    u32::from_be_bytes([b[i], b[i + 1], b[i + 2], b[i + 3]])
}

#[test]
fn command_frame_layout() {
    let body = TpmCommandBody {
        cc: TpmCc::PolicySecret,
        handles: vec![0x4000_000b, 0x0300_0000],
        parameters: vec![0xaa; 5],
    };
    let sessions = vec![session(0x4000_0009, &[7; 3], &[1, 2])];
    let w = marshal_command(&body, TpmSt::Sessions, &sessions);
    let auth_len = 4 + 2 + 3 + 1 + 2 + 2;
    assert_eq!(&w[0..2], &[0x80, 0x02]);
    assert_eq!(be32(&w, 2) as usize, w.len());
    assert_eq!(w.len(), 10 + 8 + 4 + auth_len + 5);
    assert_eq!(be32(&w, 6), 0x0000_0151);
    assert_eq!(be32(&w, 18) as usize, auth_len);
}

#[test]
fn response_frame_layout() {
    let body = TpmResponseBody { cc: TpmCc::Create, handles: vec![], parameters: vec![1, 2, 3] };
    let sessions = vec![TpmsAuthResponse {
        nonce: vec![5; 4],
        session_attributes: TpmaSession(0x01),
        hmac: vec![],
    }];
    let mut writer = TpmWriter::new(4096);
    tpm_marshal_response(&body, &sessions, TpmRc::Fmt0(TpmRcBase::Success), &mut writer).unwrap();
    let w = writer.as_bytes().to_vec();
    assert_eq!(&w[0..2], &[0x80, 0x02]);
    assert_eq!(be32(&w, 2) as usize, w.len());
    assert_eq!(be32(&w, 6), 0);
    assert_eq!(w.len(), 10 + 4 + 3 + (2 + 4 + 1 + 2));
    assert_eq!(be32(&w, 10), 3);
}

#[test]
fn validation_counts_authorization_records() {
    // One record: a handle, an empty nonce, attributes, an empty HMAC.
    let mut frame = vec![0x80, 0x02, 0, 0, 0, 28, 0, 0, 0x01, 0x7B, 0, 0, 0, 9];
    frame.extend_from_slice(&[0x40, 0, 0, 9, 0, 0, 1, 0, 0, 0xaa, 0xbb, 0xcc, 0xdd, 0xee]);
    let cmd = TpmCommand::cast(&frame).unwrap();
    assert_eq!(cmd.validate(), Ok(()));
    // The record cut short: its HMAC size runs past the area.
    let mut short = frame.clone();
    short[21] = 0x09;
    let cmd = TpmCommand::cast(&short).unwrap();
    assert!(matches!(cmd.validate(), Err(TpmError::UnexpectedEnd { .. })));
}

#[test]
fn response_codes_round_trip() {
    let codes = [
        TpmRc::Fmt0(TpmRcBase::Initialize),
        TpmRc::Warn(TpmRcBase::Retry),
        TpmRc::Fmt1(TpmRcFmt1 { base: TpmRcBase::Value, index: Some(TpmRcIndex::Parameter(6)) }),
        TpmRc::Fmt1(TpmRcFmt1 { base: TpmRcBase::Value, index: Some(TpmRcIndex::Handle(7)) }),
        TpmRc::Fmt1(TpmRcFmt1 { base: TpmRcBase::Value, index: Some(TpmRcIndex::Session(6)) }),
        TpmRc::Fmt1(TpmRcFmt1 { base: TpmRcBase::Value, index: None }),
    ];
    for rc in codes {
        assert_eq!(TpmRc::try_from_u32(rc.value()), Ok(rc));
    }
    // The base survives even where the variant does not.
    let odd = TpmRc::Fmt1(TpmRcFmt1 { base: TpmRcBase::Value, index: Some(TpmRcIndex::Session(7)) });
    let back = TpmRc::try_from_u32(odd.value()).unwrap();
    assert_ne!(back, odd);
    assert_eq!(back.base(), TpmRcBase::Value);
}

#[test]
fn response_code_base_survives_where_bits_fit() {
    let warn_base = TpmRc::Fmt1(TpmRcFmt1 { base: TpmRcBase::Retry, index: Some(TpmRcIndex::Handle(1)) });
    let back = TpmRc::try_from_u32(warn_base.value()).unwrap();
    assert_eq!(back.base(), TpmRcBase::Retry);
    let broken = TpmRc::Fmt1(TpmRcFmt1 { base: TpmRcBase::Initialize, index: Some(TpmRcIndex::Handle(2)) });
    assert!(TpmRc::try_from_u32(broken.value()).is_err());
}
