use tpm2sh::data::alg::TpmAlgId;
use tpm2sh::data::attr::TpmaObject;
use tpm2sh::data::curve::TpmEccCurve;
use tpm2sh::data::public::{
    TpmsEccParms, TpmsRsaParms, TpmtPublic, TpmuPublicId, TpmuPublicParms,
};
use tpm2sh::data::schemes::{TpmtEccScheme, TpmtKdfScheme, TpmtRsaScheme, TpmuAsymScheme};
use tpm2sh::data::sym::{TpmtSymDef, TpmuSymKeyBits, TpmuSymMode};
use tpm2sh::key::{ecc_to_public, format_alg_from_public, rsa_to_public, Alg, AlgInfo, KeyError, Tpm2shAlgId};
use tpm2sh::data::public::TpmsEccPoint;
use tpm2sh::data::schemes::TpmsSchemeHash;

fn null_sym() -> TpmtSymDef {
    TpmtSymDef { algorithm: TpmAlgId::Null, key_bits: TpmuSymKeyBits::Null, mode: TpmuSymMode::Null }
}

fn public_with(object_type: TpmAlgId, name_alg: TpmAlgId, parameters: TpmuPublicParms) -> TpmtPublic {
    TpmtPublic {
        object_type,
        name_alg,
        object_attributes: TpmaObject(0),
        auth_policy: vec![],
        parameters,
        unique: TpmuPublicId::Null,
    }
}

#[test]
fn parses_rsa_algorithm() {
    let alg = Alg::from_str("rsa-2048:sha256").unwrap();
    assert_eq!(alg.name, "rsa-2048:sha256");
    assert_eq!(alg.object_type, TpmAlgId::Rsa);
    assert_eq!(alg.name_alg, TpmAlgId::Sha256);
    assert_eq!(alg.params, AlgInfo::Rsa { key_bits: 2048 });
    assert_eq!(alg.to_string(), "rsa-2048:sha256");
}

#[test]
fn parses_ecc_and_keyedhash_algorithms() {
    let alg = Alg::from_str("ecc-nist-p256:sha384").unwrap();
    assert_eq!(alg.object_type, TpmAlgId::Ecc);
    assert_eq!(alg.name_alg, TpmAlgId::Sha384);
    assert_eq!(alg.params, AlgInfo::Ecc { curve_id: TpmEccCurve::NistP256 });

    let alg = Alg::from_str("keyedhash:sha1").unwrap();
    assert_eq!(alg.object_type, TpmAlgId::KeyedHash);
    assert_eq!(alg.name_alg, TpmAlgId::Sha1);
    assert_eq!(alg.params, AlgInfo::KeyedHash);
}

#[test]
fn rejects_malformed_algorithms() {
    assert_eq!(Alg::from_str("dsa-1024:sha1"), Err(KeyError::InvalidAlgorithmFormat("dsa-1024:sha1".to_string())));
    assert_eq!(Alg::from_str("rsa-2048"), Err(KeyError::InvalidAlgorithmFormat("rsa-2048".to_string())));
    assert_eq!(Alg::from_str("rsa-70000:sha256"), Err(KeyError::InvalidRsaKeyBits("70000".to_string())));
    assert_eq!(Alg::from_str("rsa-:sha256"), Err(KeyError::InvalidRsaKeyBits("".to_string())));
    assert_eq!(Alg::from_str("rsa-2048:md5"), Err(KeyError::InvalidAlgorithm("md5".to_string())));
    assert_eq!(
        Alg::from_str("ecc-p256:sha256"),
        Err(KeyError::InvalidEccCurve("Matching variant not found".to_string()))
    );
    assert_eq!(Alg::from_str("keyedhash:"), Err(KeyError::InvalidAlgorithm("".to_string())));
}

#[test]
fn keyedhash_constructor() {
    let alg = Alg::new_keyedhash("sha512").unwrap();
    assert_eq!(alg.name, "keyedhash:sha512");
    assert_eq!(alg.name_alg, TpmAlgId::Sha512);
    assert_eq!(Alg::new_keyedhash("sha3"), Err(KeyError::InvalidAlgorithm("sha3".to_string())));
}

#[test]
fn object_attributes_for_algorithm() {
    let rsa = Alg::from_str("rsa-2048:sha256").unwrap();
    assert_eq!(TpmaObject::from(rsa).0, 0x0003_0032);
    let keyed = Alg::from_str("keyedhash:sha256").unwrap();
    assert_eq!(TpmaObject::from(keyed).0, 0x0000_0012);
}

#[test]
fn algorithm_names_of_public_areas() {
    let rsa = public_with(
        TpmAlgId::Rsa,
        TpmAlgId::Sha256,
        TpmuPublicParms::Rsa(TpmsRsaParms {
            symmetric: null_sym(),
            scheme: TpmtRsaScheme { scheme: TpmAlgId::Null, details: TpmuAsymScheme::Null },
            key_bits: 3072,
            exponent: 0,
        }),
    );
    assert_eq!(format_alg_from_public(&rsa), "rsa-3072:sha256");
    let ecc = public_with(
        TpmAlgId::Ecc,
        TpmAlgId::Sha384,
        TpmuPublicParms::Ecc(TpmsEccParms {
            symmetric: null_sym(),
            scheme: TpmtEccScheme { scheme: TpmAlgId::Null, details: TpmuAsymScheme::Null },
            curve_id: TpmEccCurve::BpP256R1,
            kdf: TpmtKdfScheme { scheme: TpmAlgId::Null },
        }),
    );
    assert_eq!(format_alg_from_public(&ecc), "ecc-bp-p256-r1:sha384");
    let keyed = public_with(TpmAlgId::KeyedHash, TpmAlgId::Sha3_256, TpmuPublicParms::Null);
    assert_eq!(format_alg_from_public(&keyed), "keyedhash:unknown");
    let bare = public_with(TpmAlgId::Rsa, TpmAlgId::Sha256, TpmuPublicParms::Null);
    assert_eq!(format_alg_from_public(&bare), "rsa");
    let sym = public_with(TpmAlgId::SymCipher, TpmAlgId::Sha256, TpmuPublicParms::Null);
    assert_eq!(format_alg_from_public(&sym), "unknown");
    let aes = public_with(TpmAlgId::Aes, TpmAlgId::Sha256, TpmuPublicParms::Null);
    assert_eq!(format_alg_from_public(&aes), "aes");
}

#[test]
fn formatted_names_parse_back() {
    let ecc = public_with(
        TpmAlgId::Ecc,
        TpmAlgId::Sha256,
        TpmuPublicParms::Ecc(TpmsEccParms {
            symmetric: null_sym(),
            scheme: TpmtEccScheme { scheme: TpmAlgId::Null, details: TpmuAsymScheme::Null },
            curve_id: TpmEccCurve::Curve25519,
            kdf: TpmtKdfScheme { scheme: TpmAlgId::Null },
        }),
    );
    let alg = Alg::from_str(&format_alg_from_public(&ecc)).unwrap();
    assert_eq!(alg.params, AlgInfo::Ecc { curve_id: TpmEccCurve::Curve25519 });
    assert_eq!(alg.name_alg, TpmAlgId::Sha256);
}

#[test]
fn algorithm_id_names() {
    assert_eq!(Tpm2shAlgId::try_from_str("sm3_256"), Ok(Tpm2shAlgId(TpmAlgId::Sm3_256)));
    assert_eq!(Tpm2shAlgId(TpmAlgId::Ecc).to_string(), "ecc");
    assert_eq!(Tpm2shAlgId(TpmAlgId::Cfb).to_string(), "unknown");
}

#[test]
fn imported_ecc_public_area() {
    let public = ecc_to_public(&[0x04, 1, 2, 3], TpmEccCurve::NistP256, TpmAlgId::Sha256, null_sym()).unwrap();
    assert_eq!(public.object_type, TpmAlgId::Ecc);
    assert_eq!(public.object_attributes, TpmaObject(0x0002_0040));
    assert_eq!(public.unique, TpmuPublicId::Ecc(TpmsEccPoint { x: vec![1], y: vec![2, 3] }));
    match public.parameters {
        TpmuPublicParms::Ecc(p) => {
            assert_eq!(p.curve_id, TpmEccCurve::NistP256);
            assert_eq!(p.scheme.scheme, TpmAlgId::Ecdh);
            assert_eq!(p.scheme.details, TpmuAsymScheme::Hash(TpmsSchemeHash { hash_alg: TpmAlgId::Sha256 }));
            assert_eq!(p.kdf, TpmtKdfScheme { scheme: TpmAlgId::Null });
        },
        _ => panic!("not ECC parameters"),
    }
    assert_eq!(
        ecc_to_public(&[0x02, 0xab], TpmEccCurve::NistP256, TpmAlgId::Sha256, null_sym()),
        Err(KeyError::InvalidEccPoint("02ab".to_string()))
    );
    assert_eq!(
        ecc_to_public(&[], TpmEccCurve::NistP256, TpmAlgId::Sha256, null_sym()),
        Err(KeyError::InvalidEccPoint("".to_string()))
    );
    let mut long = vec![0x04];
    long.extend_from_slice(&[7u8; 200]);
    assert_eq!(
        ecc_to_public(&long, TpmEccCurve::NistP521, TpmAlgId::Sha512, null_sym()),
        Err(KeyError::CapacityExceeded)
    );
}

#[test]
fn imported_rsa_public_area() {
    let public = rsa_to_public(&[0xc5; 256], TpmAlgId::Sha256, null_sym(), 2048).unwrap();
    assert_eq!(public.unique, TpmuPublicId::Rsa(vec![0xc5; 256]));
    assert_eq!(format_alg_from_public(&public), "rsa-2048:sha256");
    assert_eq!(rsa_to_public(&[0xc5; 513], TpmAlgId::Sha256, null_sym(), 4096), Err(KeyError::CapacityExceeded));
}
