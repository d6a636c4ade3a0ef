use tpm2sh::data::alg::TpmAlgId;
use tpm2sh::data::cc::TpmCc;
use tpm2sh::data::pcr::{TpmsPcrSelect, TpmsPcrSelection};
use tpm2sh::hash::{TpmCryptoError, TpmHash};
use tpm2sh::policy::software::{update_policy_digest, SoftwarePolicySession};
use tpm2sh::policy::PolicyError;

fn hex(bytes: &[u8]) -> String {
    bytes.iter().map(|b| format!("{b:02x}")).collect()
}

#[test]
fn new_session_has_zero_digest() {
    let s = SoftwarePolicySession::new(TpmAlgId::Sha256).unwrap();
    assert_eq!(s.get_digest().unwrap(), vec![0u8; 32]);
    assert_eq!(s.hash_alg(), TpmAlgId::Sha256);
    let s = SoftwarePolicySession::new(TpmAlgId::Sha384).unwrap();
    assert_eq!(s.get_digest().unwrap(), vec![0u8; 48]);
}

#[test]
fn new_session_refuses_non_hash() {
    assert!(matches!(
        SoftwarePolicySession::new(TpmAlgId::Rsa),
        Err(PolicyError::InvalidAlgorithm(TpmAlgId::Rsa))
    ));
}

#[test]
fn policy_secret_endorsement_gives_ek_policy() {
    let mut s = SoftwarePolicySession::new(TpmAlgId::Sha256).unwrap();
    s.policy_secret(0x4000_000B, &[0x40, 0x00, 0x00, 0x0B], None, None).unwrap();
    assert_eq!(
        hex(&s.get_digest().unwrap()),
        "837197674484b3f81a90cc8d46a5d724fd52d76e06520b64f2a1da1b331469aa"
    );
}

#[test]
fn policy_pcr_digest() {
    let mut s = SoftwarePolicySession::new(TpmAlgId::Sha256).unwrap();
    let pcr_digest = TpmHash::Sha256.digest(&[b""]).unwrap();
    let pcrs = vec![TpmsPcrSelection {
        hash: TpmAlgId::Sha256,
        pcr_select: TpmsPcrSelect::try_from_slice(&[1, 0, 0]).unwrap(),
    }];
    s.policy_pcr(&pcr_digest, &pcrs).unwrap();
    assert_eq!(
        hex(&s.get_digest().unwrap()),
        "778a02d3f6ffd0f44563060f95a57ef02d7c55ecd06a03bcfeaf0f6534ba90fe"
    );
}

#[test]
fn policy_or_forgets_previous_digest() {
    let list = vec![vec![0x11u8; 32], vec![0x22u8; 32]];
    let mut a = SoftwarePolicySession::new(TpmAlgId::Sha256).unwrap();
    a.policy_or(&list).unwrap();
    let mut b = SoftwarePolicySession::new(TpmAlgId::Sha256).unwrap();
    b.policy_secret(0x4000_0001, &[0x40, 0, 0, 1], None, None).unwrap();
    b.policy_or(&list).unwrap();
    assert_eq!(a.get_digest().unwrap(), b.get_digest().unwrap());
    assert_eq!(
        hex(&a.get_digest().unwrap()),
        "41937bd1ae2b2dcc1a0be7cb200b7a5cb4b5c21dc22e6bf90ece9fc376d50293"
    );
}

#[test]
fn policy_restart_resets_digest() {
    let mut s = SoftwarePolicySession::new(TpmAlgId::Sha256).unwrap();
    s.policy_secret(0x4000_0001, &[0x40, 0, 0, 1], None, None).unwrap();
    assert_ne!(s.get_digest().unwrap(), vec![0u8; 32]);
    s.policy_restart().unwrap();
    assert_eq!(s.get_digest().unwrap(), vec![0u8; 32]);
}

#[test]
fn update_policy_digest_joins_params() {
    let mut d = vec![0xaau8; 32];
    update_policy_digest(&mut d, TpmAlgId::Sha256, TpmCc::PolicyOR, &[b"abc", b"def"]).unwrap();
    assert_eq!(hex(&d), "84da47f3ba843ca535bbf66dc1b6fe43521bbb2698f0a2bf69193b6a676c5ffe");
}

#[test]
fn update_policy_digest_refuses_non_hash() {
    let mut d = vec![0u8; 32];
    let r = update_policy_digest(&mut d, TpmAlgId::Rsa, TpmCc::PolicyOR, &[b"abc"]);
    assert!(matches!(r, Err(PolicyError::Crypto(TpmCryptoError::InvalidHash))));
    assert_eq!(d, vec![0u8; 32]);
}
