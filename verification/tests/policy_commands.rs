use tpm2sh::policy::execute::execute_policy;
use tpm2sh::policy::PolicyError;
use tpm2sh::data::alg::TpmAlgId;
use tpm2sh::data::attr::TpmaSession;
use tpm2sh::data::cc::TpmCc;
use tpm2sh::frame::auth::TpmsAuthCommand;
use tpm2sh::handle::Handle;
use tpm2sh::data::pcr::{TpmsPcrSelect, TpmsPcrSelection};
use tpm2sh::policy::command_list::{
    secret_name, to_command_list_walk_pcr, to_command_list_walk_secret, PolicyCommand,
    PolicyCommandError,
};
use tpm2sh::policy::expr::{from_command_list, to_command_list, PolicyExpr};
use tpm2sh::policy::software::SoftwarePolicySession;

fn hex(bytes: &[u8]) -> String {
    bytes.iter().map(|b| format!("{b:02x}")).collect()
}

#[test]
fn endorsement_secret_appends_command_and_updates_digest() {
    let mut session = SoftwarePolicySession::new(TpmAlgId::Sha256).unwrap();
    let mut list: Vec<(PolicyCommand, Vec<TpmsAuthCommand>)> = Vec::new();
    let names: Vec<(u32, Vec<u8>)> = Vec::new();
    let digest = to_command_list_walk_secret(
        &Handle::new(0x4000_000B),
        b"pw",
        &names,
        &mut list,
        &mut session,
    )
    .unwrap();
    assert_eq!(hex(&digest), "837197674484b3f81a90cc8d46a5d724fd52d76e06520b64f2a1da1b331469aa");
    assert_eq!(list.len(), 1);
    assert_eq!(list[0].0, PolicyCommand::Secret { auth_handle: 0x4000_000B });
    assert_eq!(
        list[0].1,
        vec![TpmsAuthCommand {
            session_handle: 0x4000_0009,
            nonce: vec![],
            session_attributes: TpmaSession(0),
            hmac: b"pw".to_vec(),
        }]
    );
}

#[test]
fn secret_names() {
    let names = vec![(0x8100_0001u32, vec![0x00, 0x0b, 0xaa]), (0x8100_0001u32, vec![0xff])];
    assert_eq!(secret_name(&names, 0x8100_0001), Ok(vec![0x00, 0x0b, 0xaa]));
    assert_eq!(secret_name(&names, 0x8100_0002), Err(PolicyCommandError::InvalidExpression));
    assert_eq!(secret_name(&names, 0x4000_0001), Ok(vec![0x40, 0, 0, 1]));
    assert_eq!(secret_name(&names, 0x4000_0009), Err(PolicyCommandError::InvalidType(0x40)));
    assert_eq!(secret_name(&names, 0x8000_0000), Err(PolicyCommandError::InvalidType(0x80)));
    assert_eq!(secret_name(&names, 0x7700_0000), Err(PolicyCommandError::InvalidType(0x77)));
}

#[test]
fn secret_errors_leave_list_and_session() {
    let mut session = SoftwarePolicySession::new(TpmAlgId::Sha256).unwrap();
    let mut list: Vec<(PolicyCommand, Vec<TpmsAuthCommand>)> = Vec::new();
    let names: Vec<(u32, Vec<u8>)> = Vec::new();
    let pattern = Handle::parse("8100000?").unwrap();
    assert_eq!(
        to_command_list_walk_secret(&pattern, b"", &names, &mut list, &mut session),
        Err(PolicyCommandError::PatternDenied)
    );
    assert_eq!(
        to_command_list_walk_secret(&Handle::new(0x8100_0001), b"", &names, &mut list, &mut session),
        Err(PolicyCommandError::InvalidExpression)
    );
    assert_eq!(
        to_command_list_walk_secret(&Handle::new(0x4000_0001), &[1u8; 65], &names, &mut list, &mut session),
        Err(PolicyCommandError::OperationFailed)
    );
    assert!(list.is_empty());
    assert_eq!(session.get_digest().unwrap(), vec![0u8; 32]);
}

#[test]
fn pcr_step_appends_command_and_updates_digest() {
    let pcrs = vec![TpmsPcrSelection {
        hash: TpmAlgId::Sha256,
        pcr_select: TpmsPcrSelect::try_from_slice(&[1, 0, 0]).unwrap(),
    }];
    let pcr_digest = [0x5au8; 32];
    let mut session = SoftwarePolicySession::new(TpmAlgId::Sha256).unwrap();
    let mut list: Vec<(PolicyCommand, Vec<TpmsAuthCommand>)> = Vec::new();
    let digest = to_command_list_walk_pcr(&pcrs, Some(&pcr_digest), &mut list, &mut session).unwrap();
    let mut expected = SoftwarePolicySession::new(TpmAlgId::Sha256).unwrap();
    expected.policy_pcr(&pcr_digest, &pcrs).unwrap();
    assert_eq!(digest, expected.get_digest().unwrap());
    assert_eq!(
        list,
        vec![(PolicyCommand::Pcr { pcr_digest: pcr_digest.to_vec(), pcrs: pcrs.clone() }, vec![])]
    );
}

#[test]
fn pcr_step_errors() {
    let pcrs: Vec<TpmsPcrSelection> = vec![];
    let mut session = SoftwarePolicySession::new(TpmAlgId::Sha256).unwrap();
    let mut list: Vec<(PolicyCommand, Vec<TpmsAuthCommand>)> = Vec::new();
    assert_eq!(
        to_command_list_walk_pcr(&pcrs, None, &mut list, &mut session),
        Err(PolicyCommandError::PcrDigestMissing)
    );
    assert_eq!(
        to_command_list_walk_pcr(&pcrs, Some(&[0u8; 20]), &mut list, &mut session),
        Err(PolicyCommandError::InvalidPcrDigest)
    );
    assert!(list.is_empty());
}

fn sel0() -> Vec<TpmsPcrSelection> {
    vec![TpmsPcrSelection { hash: TpmAlgId::Sha256, pcr_select: TpmsPcrSelect::try_from_slice(&[1, 0, 0]).unwrap() }]
}

fn owner_secret(pw: &[u8]) -> PolicyExpr {
    PolicyExpr::Secret {
        auth_handle: Box::new(PolicyExpr::Handle(Handle::new(0x4000_0001))),
        password: Some(Box::new(PolicyExpr::Password(pw.to_vec()))),
    }
}

#[test]
fn command_list_roundtrip() {
    let make = || {
        PolicyExpr::Or(vec![
            PolicyExpr::And(vec![
                PolicyExpr::Pcr { selections: sel0(), digest: Some(vec![7u8; 32]) },
                owner_secret(b"a"),
            ]),
            owner_secret(b"b"),
        ])
    };
    let expr = make();
    let names: Vec<(u32, Vec<u8>)> = Vec::new();
    let (list, digest) = to_command_list(&expr, TpmAlgId::Sha256, &names).unwrap();
    assert_eq!(digest.len(), 32);
    assert_eq!(list.len(), 6);
    assert_eq!(list[0].0, PolicyCommand::Restart);
    assert!(matches!(list[1].0, PolicyCommand::Pcr { .. }));
    assert_eq!(list[2].0, PolicyCommand::Secret { auth_handle: 0x4000_0001 });
    assert_eq!(list[3].0, PolicyCommand::Restart);
    assert!(matches!(&list[5].0, PolicyCommand::Or { p_hash_list } if p_hash_list.len() == 2));
    assert_eq!(from_command_list(&list), Ok(make()));
}

#[test]
fn from_command_list_errors() {
    let or3 = PolicyCommand::Or { p_hash_list: vec![vec![0; 32]; 3] };
    assert_eq!(
        from_command_list(&vec![(PolicyCommand::Restart, vec![]), (or3, vec![])]),
        Err(PolicyCommandError::OperationFailed)
    );
    assert_eq!(
        from_command_list(&vec![(PolicyCommand::Other(TpmCc::Startup), vec![])]),
        Err(PolicyCommandError::InvalidCc(TpmCc::Startup))
    );
    assert_eq!(
        from_command_list(&vec![(PolicyCommand::Restart, vec![])]),
        Err(PolicyCommandError::OperationFailed)
    );
    assert_eq!(from_command_list(&vec![]), Ok(PolicyExpr::And(vec![])));
    let secret = from_command_list(&vec![(PolicyCommand::Secret { auth_handle: 0x8100_0001 }, vec![])]).unwrap();
    assert_eq!(
        secret,
        PolicyExpr::Secret { auth_handle: Box::new(PolicyExpr::Handle(Handle::new(0x8100_0001))), password: None }
    );
}

#[test]
fn to_command_list_refuses_bare_literals() {
    let names: Vec<(u32, Vec<u8>)> = Vec::new();
    assert_eq!(
        to_command_list(&PolicyExpr::Password(vec![1]), TpmAlgId::Sha256, &names).unwrap_err(),
        PolicyCommandError::InvalidExpression
    );
    let nine = PolicyExpr::Or((0..9).map(|_| owner_secret(b"")).collect());
    assert_eq!(to_command_list(&nine, TpmAlgId::Sha256, &names).unwrap_err(), PolicyCommandError::TooManyBranches);
    let missing = PolicyExpr::Pcr { selections: sel0(), digest: None };
    assert_eq!(to_command_list(&missing, TpmAlgId::Sha256, &names).unwrap_err(), PolicyCommandError::PcrDigestMissing);
}

#[test]
fn execute_policy_matches_session_steps() {
    let names: Vec<(u32, Vec<u8>)> = vec![(0x8100_0001, vec![0x00, 0x0b, 0x55])];
    let pcr_digest = vec![3u8; 32];
    let expr = PolicyExpr::And(vec![
        PolicyExpr::Pcr { selections: sel0(), digest: Some(pcr_digest.clone()) },
        PolicyExpr::Secret {
            auth_handle: Box::new(PolicyExpr::Handle(Handle::new(0x8100_0001))),
            password: None,
        },
    ]);
    let mut session = SoftwarePolicySession::new(TpmAlgId::Sha256).unwrap();
    let d = execute_policy(&expr, &mut session, &names).unwrap();
    let mut expected = SoftwarePolicySession::new(TpmAlgId::Sha256).unwrap();
    expected.policy_pcr(&pcr_digest, &sel0()).unwrap();
    expected.policy_secret(0x8100_0001, &[0x00, 0x0b, 0x55], None, None).unwrap();
    assert_eq!(d, expected.get_digest().unwrap());
    assert_eq!(session.get_digest().unwrap(), d);

    let mut s = SoftwarePolicySession::new(TpmAlgId::Sha256).unwrap();
    assert!(matches!(execute_policy(&PolicyExpr::And(vec![]), &mut s, &names), Err(PolicyError::InvalidExpression(_))));
    assert!(matches!(execute_policy(&owner_secret(b"x"), &mut s, &names), Err(PolicyError::InvalidExpression(_))));
    let bad_pw = PolicyExpr::Secret {
        auth_handle: Box::new(PolicyExpr::Handle(Handle::new(0x8100_0001))),
        password: Some(Box::new(PolicyExpr::Handle(Handle::new(1)))),
    };
    assert!(matches!(execute_policy(&bad_pw, &mut s, &names), Err(PolicyError::InvalidSecret(_))));
    let big = PolicyExpr::Pcr { selections: sel0(), digest: Some(vec![0; 65]) };
    assert!(matches!(execute_policy(&big, &mut s, &names), Err(PolicyError::CapacityExceeded)));
}

#[test]
fn execute_policy_or_restarts_each_branch() {
    let names: Vec<(u32, Vec<u8>)> = Vec::new();
    let a = || PolicyExpr::Pcr { selections: sel0(), digest: Some(vec![1u8; 32]) };
    let b = || PolicyExpr::Pcr { selections: sel0(), digest: Some(vec![2u8; 32]) };
    let mut s = SoftwarePolicySession::new(TpmAlgId::Sha256).unwrap();
    let d = execute_policy(&PolicyExpr::Or(vec![a(), b()]), &mut s, &names).unwrap();
    let mut e = SoftwarePolicySession::new(TpmAlgId::Sha256).unwrap();
    let da = execute_policy(&a(), &mut e, &names).unwrap();
    let mut e2 = SoftwarePolicySession::new(TpmAlgId::Sha256).unwrap();
    let db = execute_policy(&b(), &mut e2, &names).unwrap();
    let mut o = SoftwarePolicySession::new(TpmAlgId::Sha256).unwrap();
    o.policy_or(&vec![da, db]).unwrap();
    assert_eq!(d, o.get_digest().unwrap());
}
