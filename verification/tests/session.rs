use openssl::hash::{hash, MessageDigest};
use openssl::pkey::PKey;
use openssl::sign::Signer;
use tpm2sh::data::alg::TpmAlgId;
use tpm2sh::data::attr::TpmaSession;
use tpm2sh::data::cc::TpmCc;
use tpm2sh::data::rc::{TpmRc, TpmRcBase, TpmRcFmt1};
use tpm2sh::frame::auth::TpmsAuthCommand;
use tpm2sh::session::{build_auth_area, create_auth, stale_sessions, AuthSession, AuthSpec, JobError};

fn hmac_session(vhandle: u32, attributes: u8) -> AuthSession {
    AuthSession {
        vhandle,
        handle: 0x0200_0000,
        hmac_session: true,
        auth_hash: TpmAlgId::Sha256,
        hmac_key: b"key".to_vec(),
        nonce_tpm: vec![0xaa; 32],
        attributes: TpmaSession(attributes),
    }
}

fn expected_hmac(name: &[u8], params: &[u8], caller: &[u8], extra: &[u8], attributes: u8) -> Vec<u8> {
    let mut cp = 0x0000_0153u32.to_be_bytes().to_vec();
    cp.extend_from_slice(name);
    cp.extend_from_slice(params);
    let cp_hash = hash(MessageDigest::sha256(), &cp).unwrap().to_vec();
    let mut payload = cp_hash;
    payload.extend_from_slice(caller);
    payload.extend_from_slice(&[0xaa; 32]);
    payload.extend_from_slice(extra);
    payload.push(attributes);
    let key = PKey::hmac(b"key").unwrap();
    let mut signer = Signer::new(MessageDigest::sha256(), &key).unwrap();
    signer.update(&payload).unwrap();
    signer.sign_to_vec().unwrap()
}

#[test]
fn create_auth_computes_the_session_hmac() {
    let s = hmac_session(1, 0x01);
    let names = vec![vec![0x00, 0x0b, 0x11]];
    let a = create_auth(&s, &[5; 32], &[], TpmCc::Create, &names, &[1, 2, 3], None, None).unwrap();
    assert_eq!(a.session_handle, 0x0200_0000);
    assert_eq!(a.nonce, vec![5; 32]);
    assert_eq!(a.hmac, expected_hmac(&[0x00, 0x0b, 0x11], &[1, 2, 3], &[5; 32], &[], 0x01));
    let mut policy = hmac_session(1, 0x01);
    policy.hmac_session = false;
    let p = create_auth(&policy, &[5; 32], &[], TpmCc::Create, &names, &[], None, None).unwrap();
    assert!(p.hmac.is_empty());
    let mut nokey = hmac_session(1, 0);
    nokey.hmac_key = vec![];
    assert!(matches!(
        create_auth(&nokey, &[5; 32], &[], TpmCc::Create, &names, &[], None, None),
        Err(JobError::Crypto(_))
    ));
}

#[test]
fn auth_area_pairs_authorizations_with_handles() {
    let sessions = vec![hmac_session(7, 0x20 | 0x01)];
    let names = vec![vec![0x40, 0, 0, 1], vec![0x00, 0x0b, 0x22]];
    let nonces = vec![vec![9u8; 64], vec![8u8; 64]];
    let auths = vec![AuthSpec::Password(b"pw".to_vec()), AuthSpec::Session(7)];
    let area = build_auth_area(TpmCc::Create, &[0x4000_0001, 0x8100_0001], &names, &[4], &auths, &sessions, &nonces)
        .unwrap();
    assert_eq!(
        area[0],
        TpmsAuthCommand {
            session_handle: 0x4000_0009,
            nonce: vec![],
            session_attributes: TpmaSession(0),
            hmac: b"pw".to_vec()
        }
    );
    assert_eq!(area[1].nonce, vec![8u8; 32]);
    assert_eq!(area[1].hmac, expected_hmac(&[0x00, 0x0b, 0x22], &[4], &[8u8; 32], &[], 0x21));

    let first = vec![AuthSpec::Session(7)];
    let area = build_auth_area(TpmCc::Create, &[0x8100_0001], &names[1..].to_vec(), &[4], &first, &sessions, &nonces[..1].to_vec())
        .unwrap();
    assert_eq!(area[0].hmac, expected_hmac(&[0x00, 0x0b, 0x22], &[4], &[9u8; 32], &[0xaa; 32], 0x21));

    assert_eq!(
        build_auth_area(TpmCc::Create, &[1], &vec![vec![]], &[], &auths, &sessions, &nonces),
        Err(JobError::TrailingAuthorizations)
    );
    assert_eq!(
        build_auth_area(TpmCc::Create, &[1], &vec![vec![]], &[], &vec![AuthSpec::Session(8)], &sessions, &vec![vec![0; 64]]),
        Err(JobError::HandleNotFound(8))
    );
    assert_eq!(
        build_auth_area(TpmCc::Create, &[1], &vec![vec![]], &[], &vec![AuthSpec::Policy], &sessions, &vec![vec![0; 64]]),
        Err(JobError::InvalidAuth)
    );
}

#[test]
fn policy_failure_drops_sessions() {
    let auths = vec![AuthSpec::Session(3), AuthSpec::Password(vec![]), AuthSpec::Session(5)];
    let fail = TpmRc::Fmt1(TpmRcFmt1 { base: TpmRcBase::PolicyFail, index: None });
    assert_eq!(stale_sessions(fail, &auths), vec![3, 5]);
    assert_eq!(stale_sessions(TpmRc::Fmt0(TpmRcBase::Initialize), &auths), Vec::<u32>::new());
}
