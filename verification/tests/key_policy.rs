use tpm2sh::data::cc::TpmCc;
use tpm2sh::frame::codec::push_u32;
use tpm2sh::key_policy::{TpmKeyAuthPolicy, TpmKeyCommandAsn1, TpmKeyError, TpmKeyPolicyCommand};

#[test]
fn policy_or_roundtrip() {
    // An empty digest list, as a `TPML_DIGEST` marshals: a zero count.
    let mut body = Vec::new();
    push_u32(&mut body, 0);
    assert_eq!(body, vec![0, 0, 0, 0]);

    let cmd = TpmKeyPolicyCommand::new(TpmCc::PolicyOR, body.clone());

    let asn1 = TpmKeyCommandAsn1::from_command(&cmd);
    assert_eq!(asn1.command_code, TpmCc::PolicyOR.value());
    assert_eq!(asn1.command_policy, body);

    let back = TpmKeyPolicyCommand::try_from_asn1(&asn1).unwrap();
    assert_eq!(back.cc(), TpmCc::PolicyOR);
    assert_eq!(back.body(), &body);
}

#[test]
fn conversion_asn1_roundtrip() {
    let body = vec![1, 2, 3, 4];
    let cmd = TpmKeyPolicyCommand::new(TpmCc::PolicySecret, body.clone());

    let asn1 = TpmKeyCommandAsn1::from_command(&cmd);
    assert_eq!(asn1.command_code, TpmCc::PolicySecret.value());

    let back = TpmKeyPolicyCommand::try_from_asn1(&asn1).unwrap();
    assert_eq!(back.cc(), TpmCc::PolicySecret);
    assert_eq!(back.body(), &body);
}

#[test]
fn asn1_command_must_be_a_policy_command() {
    let asn1 = TpmKeyCommandAsn1 { command_code: 0x0000_0131, command_policy: vec![] };
    assert_eq!(TpmKeyPolicyCommand::try_from_asn1(&asn1), Err(TpmKeyError::InvalidCc(0x131)));
    let asn1 = TpmKeyCommandAsn1 { command_code: 0xdead, command_policy: vec![] };
    assert_eq!(TpmKeyPolicyCommand::try_from_asn1(&asn1), Err(TpmKeyError::InvalidCc(0xdead)));
}

#[test]
fn key_auth_policy_accessors() {
    let empty = TpmKeyAuthPolicy::default();
    assert!(empty.is_empty());
    assert_eq!(empty.len(), 0);
    assert_eq!(empty.name(), &None);
    let p = TpmKeyAuthPolicy::new(
        Some("seal".to_string()),
        vec![TpmKeyPolicyCommand::new(TpmCc::PolicyPcr, vec![9])],
    );
    assert_eq!(p.len(), 1);
    assert!(!p.is_empty());
    assert_eq!(p.name(), &Some("seal".to_string()));
    assert_eq!(p.policy()[0].cc(), TpmCc::PolicyPcr);
}
