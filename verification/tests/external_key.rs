use openssl::ec::{EcGroup, EcKey};
use openssl::nid::Nid;
use openssl::pkey::PKey;
use openssl::rsa::Rsa;
use tpm2sh::data::alg::TpmAlgId;
use tpm2sh::data::attr::TpmaObject;
use tpm2sh::data::curve::TpmEccCurve;
use tpm2sh::data::public::{
    TpmsEccParms, TpmsEccPoint, TpmsRsaParms, TpmtPublic, TpmuPublicId, TpmuPublicParms,
};
use tpm2sh::data::schemes::{TpmtEccScheme, TpmtKdfScheme, TpmtRsaScheme, TpmuAsymScheme};
use tpm2sh::data::sym::{TpmtSymDef, TpmuSymKeyBits, TpmuSymMode};
use tpm2sh::ecc::TpmEllipticCurve;
use tpm2sh::ecc_key::{tpm_make_point, TpmEccExternalKey};
use tpm2sh::error::TpmError;
use tpm2sh::hash::{TpmCryptoError, TpmPublicAreaField};
use tpm2sh::rsa::TpmRsaExternalKey;
use tpm2sh::template::TpmPublicTemplate;

fn null_sym() -> TpmtSymDef {
    TpmtSymDef { algorithm: TpmAlgId::Null, key_bits: TpmuSymKeyBits::Null, mode: TpmuSymMode::Null }
}

fn rsa_public(exponent: u32, modulus: Vec<u8>) -> TpmtPublic {
    TpmtPublic {
        object_type: TpmAlgId::Rsa,
        name_alg: TpmAlgId::Sha256,
        object_attributes: TpmaObject(0),
        auth_policy: vec![],
        parameters: TpmuPublicParms::Rsa(TpmsRsaParms {
            symmetric: null_sym(),
            scheme: TpmtRsaScheme { scheme: TpmAlgId::Null, details: TpmuAsymScheme::Null },
            key_bits: 2048,
            exponent,
        }),
        unique: TpmuPublicId::Rsa(modulus),
    }
}

fn ecc_public(curve_id: TpmEccCurve, x: Vec<u8>, y: Vec<u8>) -> TpmtPublic {
    TpmtPublic {
        object_type: TpmAlgId::Ecc,
        name_alg: TpmAlgId::Sha256,
        object_attributes: TpmaObject(0),
        auth_policy: vec![],
        parameters: TpmuPublicParms::Ecc(TpmsEccParms {
            symmetric: null_sym(),
            scheme: TpmtEccScheme { scheme: TpmAlgId::Null, details: TpmuAsymScheme::Null },
            curve_id,
            kdf: TpmtKdfScheme { scheme: TpmAlgId::Null },
        }),
        unique: TpmuPublicId::Ecc(TpmsEccPoint { x, y }),
    }
}

#[test]
fn rsa_key_new_and_getters() {
    let k = TpmRsaExternalKey::new(vec![0xc5; 256], 3, 2048);
    assert_eq!(k.public_key(), &[0xc5; 256][..]);
    assert_eq!(k.exponent(), 3);
    assert_eq!(k.key_bits(), 2048);
    let c = k.clone();
    assert_eq!(c.public_key(), k.public_key());
}

#[test]
fn rsa_key_from_public_normalizes_default_exponent() {
    let k = TpmRsaExternalKey::try_from_public(&rsa_public(65537, vec![0xab; 256])).unwrap();
    assert_eq!(k.exponent(), 0);
    assert_eq!(k.key_bits(), 2048);
    let k = TpmRsaExternalKey::try_from_public(&rsa_public(3, vec![0xab; 256])).unwrap();
    assert_eq!(k.exponent(), 3);
}

#[test]
fn rsa_key_from_public_refuses_other_objects() {
    let ecc = ecc_public(TpmEccCurve::NistP256, vec![1; 32], vec![2; 32]);
    assert!(matches!(
        TpmRsaExternalKey::try_from_public(&ecc),
        Err(TpmCryptoError::InvalidRsaParameters)
    ));
}

#[test]
fn rsa_key_from_parts() {
    let k = TpmRsaExternalKey::from_parts(&[0xc5; 256], false, 17, &[0x01, 0x00, 0x01], 256).unwrap();
    assert_eq!(k.exponent(), 0);
    assert_eq!(k.key_bits(), 2048);
    let k = TpmRsaExternalKey::from_parts(&[0xc5; 128], false, 2, &[0x03], 128).unwrap();
    assert_eq!(k.exponent(), 3);
    assert_eq!(k.key_bits(), 1024);
    assert!(matches!(
        TpmRsaExternalKey::from_parts(&[0xc5; 256], true, 17, &[0x01, 0x00, 0x01], 256),
        Err(TpmCryptoError::InvalidRsaParameters)
    ));
    assert!(matches!(
        TpmRsaExternalKey::from_parts(&[0xc5; 256], false, 33, &[1, 0, 0, 0, 1], 256),
        Err(TpmCryptoError::InvalidRsaParameters)
    ));
    assert!(matches!(
        TpmRsaExternalKey::from_parts(&[0xc5; 513], false, 17, &[0x01, 0x00, 0x01], 513),
        Err(TpmCryptoError::InvalidRsaParameters)
    ));
}

#[test]
fn rsa_key_from_openssl() {
    let rsa = Rsa::generate(2048).unwrap();
    let modulus = rsa.n().to_vec();
    let pkey = PKey::from_rsa(rsa).unwrap();
    let k = TpmRsaExternalKey::try_from_pkey(&pkey).unwrap();
    assert_eq!(k.public_key(), modulus.as_slice());
    assert_eq!(k.exponent(), 0);
    assert_eq!(k.key_bits(), 2048);
}

#[test]
fn curve_nids() {
    assert_eq!(TpmEllipticCurve::NistP256.to_nid(), Ok(Nid::X9_62_PRIME256V1.as_raw()));
    assert_eq!(TpmEllipticCurve::BpP384R1.to_nid(), Ok(Nid::BRAINPOOL_P384R1.as_raw()));
    assert_eq!(TpmEllipticCurve::Sm2P256.to_nid(), Ok(Nid::SM2.as_raw()));
    assert_eq!(
        TpmEllipticCurve::Curve25519.to_nid(),
        Err(TpmCryptoError::InvalidEccCurve(TpmEccCurve::Curve25519))
    );
    assert_eq!(
        TpmEllipticCurve::try_from_nid(Nid::SECP521R1.as_raw()),
        Ok(TpmEllipticCurve::NistP521)
    );
    assert_eq!(TpmEllipticCurve::try_from_nid(714), Err(TpmCryptoError::InvalidEccNid(714)));
}

#[test]
fn make_point_splits_uncompressed_encoding() {
    let mut bytes = vec![0x04];
    bytes.extend_from_slice(&[1; 32]);
    bytes.extend_from_slice(&[2; 32]);
    let p = tpm_make_point(&bytes, 32, TpmEllipticCurve::NistP256).unwrap();
    assert_eq!(p.x, vec![1; 32]);
    assert_eq!(p.y, vec![2; 32]);
    assert_eq!(
        tpm_make_point(&bytes, 48, TpmEllipticCurve::NistP384),
        Err(TpmCryptoError::InvalidEccPoint {
            curve: TpmEccCurve::NistP384,
            x_len: 32,
            y_len: 32,
            expected_len: 48
        })
    );
    bytes[0] = 0x02;
    assert!(matches!(
        tpm_make_point(&bytes, 32, TpmEllipticCurve::NistP256),
        Err(TpmCryptoError::InvalidEccPoint { .. })
    ));
    assert_eq!(
        tpm_make_point(&[], 0, TpmEllipticCurve::NistP256),
        Err(TpmCryptoError::InvalidEccPoint {
            curve: TpmEccCurve::NistP256,
            x_len: 0,
            y_len: 0,
            expected_len: 0
        })
    );
    let mut big = vec![0x04];
    big.extend_from_slice(&[7; 140]);
    assert_eq!(
        tpm_make_point(&big, 70, TpmEllipticCurve::NistP521),
        Err(TpmCryptoError::Unmarshal(TpmError::TooManyItems { offset: 0, limit: 66, actual: 70 }))
    );
}

#[test]
fn ecc_key_try_new_checks_coordinates() {
    let k = TpmEccExternalKey::try_new(
        TpmEllipticCurve::NistP256,
        TpmsEccPoint { x: vec![1; 32], y: vec![2; 32] },
    )
    .unwrap();
    assert_eq!(k.curve(), TpmEllipticCurve::NistP256);
    assert_eq!(k.unique().x, vec![1; 32]);
    assert_eq!(
        TpmEccExternalKey::try_new(
            TpmEllipticCurve::NistP521,
            TpmsEccPoint { x: vec![1; 32], y: vec![2; 66] },
        )
        .unwrap_err(),
        TpmCryptoError::InvalidEccPoint {
            curve: TpmEccCurve::NistP521,
            x_len: 32,
            y_len: 66,
            expected_len: 66
        }
    );
    assert_eq!(
        TpmEccExternalKey::try_new(TpmEllipticCurve::BnP256, TpmsEccPoint { x: vec![], y: vec![] })
            .unwrap_err(),
        TpmCryptoError::InvalidEccCurve(TpmEccCurve::BnP256)
    );
}

#[test]
fn ecc_key_from_public() {
    let k = TpmEccExternalKey::try_from_public(&ecc_public(TpmEccCurve::NistP384, vec![3; 48], vec![4; 48]))
        .unwrap();
    assert_eq!(k.curve(), TpmEllipticCurve::NistP384);
    assert_eq!(
        TpmEccExternalKey::try_from_public(&rsa_public(0, vec![1; 256])).unwrap_err(),
        TpmCryptoError::InvalidPublicArea {
            object_type: TpmAlgId::Rsa,
            field: TpmPublicAreaField::ObjectType
        }
    );
    let mut wrong_unique = ecc_public(TpmEccCurve::NistP256, vec![], vec![]);
    wrong_unique.unique = TpmuPublicId::Rsa(vec![1]);
    assert_eq!(
        TpmEccExternalKey::try_from_public(&wrong_unique).unwrap_err(),
        TpmCryptoError::InvalidPublicArea {
            object_type: TpmAlgId::Ecc,
            field: TpmPublicAreaField::Unique
        }
    );
    assert_eq!(
        TpmEccExternalKey::try_from_public(&ecc_public(TpmEccCurve::NoCurve, vec![], vec![]))
            .unwrap_err(),
        TpmCryptoError::InvalidEccCurve(TpmEccCurve::NoCurve)
    );
}

#[test]
fn ecc_key_from_openssl() {
    let group = EcGroup::from_curve_name(Nid::SECP384R1).unwrap();
    let pkey = PKey::from_ec_key(EcKey::generate(&group).unwrap()).unwrap();
    let k = TpmEccExternalKey::try_from_pkey(&pkey).unwrap();
    assert_eq!(k.curve(), TpmEllipticCurve::NistP384);
    assert_eq!(k.unique().x.len(), 48);
    assert_eq!(k.unique().y.len(), 48);
    let group = EcGroup::from_curve_name(Nid::SECP256K1).unwrap();
    let pkey = PKey::from_ec_key(EcKey::generate(&group).unwrap()).unwrap();
    assert_eq!(
        TpmEccExternalKey::try_from_pkey(&pkey).unwrap_err(),
        TpmCryptoError::InvalidEccNid(714)
    );
}

#[test]
fn ecc_key_from_der() {
    let group = EcGroup::from_curve_name(Nid::X9_62_PRIME256V1).unwrap();
    let ec = EcKey::generate(&group).unwrap();
    let scalar = ec.private_key().to_vec();
    let der = PKey::from_ec_key(ec).unwrap().private_key_to_der().unwrap();
    let (k, sensitive) = TpmEccExternalKey::from_der(&der).unwrap();
    assert_eq!(k.curve(), TpmEllipticCurve::NistP256);
    assert_eq!(sensitive, scalar);
    assert_eq!(TpmEccExternalKey::from_der(&[1, 2, 3]).unwrap_err(), TpmCryptoError::Crypto);
}

#[test]
fn rsa_key_from_der() {
    let rsa = Rsa::generate(2048).unwrap();
    let p = rsa.p().unwrap().to_vec();
    let der = PKey::from_rsa(rsa).unwrap().private_key_to_der().unwrap();
    let (k, sensitive) = TpmRsaExternalKey::from_der(&der).unwrap();
    assert_eq!(k.key_bits(), 2048);
    assert_eq!(sensitive, p);
    assert!(matches!(
        TpmRsaExternalKey::from_der(&[1, 2, 3]),
        Err(TpmCryptoError::OperationFailed)
    ));
}

fn template() -> TpmPublicTemplate {
    TpmPublicTemplate::new(TpmAlgId::Sha256, TpmaObject(0x0002_0072), vec![0xab; 32], null_sym())
}

#[test]
fn template_accessors() {
    let t = template();
    assert_eq!(t.name_alg(), TpmAlgId::Sha256);
    assert_eq!(t.object_attributes(), TpmaObject(0x0002_0072));
    assert_eq!(t.auth_policy(), vec![0xab; 32]);
    assert_eq!(t.symmetric(), null_sym());
}

#[test]
fn rsa_key_to_public_reads_back() {
    let k = TpmRsaExternalKey::new(vec![0xc5; 256], 0, 2048);
    let public = k.to_public(&template());
    assert_eq!(public.object_type, TpmAlgId::Rsa);
    assert_eq!(public.name_alg, TpmAlgId::Sha256);
    assert_eq!(public.object_attributes, TpmaObject(0x0002_0072));
    assert!(public.auth_policy.is_empty());
    assert_eq!(
        public.parameters,
        TpmuPublicParms::Rsa(TpmsRsaParms {
            symmetric: null_sym(),
            scheme: TpmtRsaScheme {
                scheme: TpmAlgId::Oaep,
                details: TpmuAsymScheme::Hash(tpm2sh::data::schemes::TpmsSchemeHash {
                    hash_alg: TpmAlgId::Sha256
                }),
            },
            key_bits: 2048,
            exponent: 0,
        })
    );
    let back = TpmRsaExternalKey::try_from_public(&public).unwrap();
    assert_eq!(back.public_key(), k.public_key());
    assert_eq!(back.exponent(), 0);
    assert_eq!(back.key_bits(), 2048);
}

#[test]
fn ecc_key_to_public_reads_back() {
    let k = TpmEccExternalKey::try_new(
        TpmEllipticCurve::NistP256,
        TpmsEccPoint { x: vec![1; 32], y: vec![2; 32] },
    )
    .unwrap();
    let public = k.to_public(&template());
    assert_eq!(public.object_type, TpmAlgId::Ecc);
    assert_eq!(public.auth_policy, vec![0xab; 32]);
    match &public.parameters {
        TpmuPublicParms::Ecc(p) => {
            assert_eq!(p.curve_id, TpmEccCurve::NistP256);
            assert_eq!(p.scheme.scheme, TpmAlgId::Ecdh);
            assert_eq!(p.kdf, TpmtKdfScheme { scheme: TpmAlgId::Null });
        }
        _ => panic!("not an ECC key"),
    }
    let back = TpmEccExternalKey::try_from_public(&public).unwrap();
    assert_eq!(back.curve(), TpmEllipticCurve::NistP256);
    assert_eq!(back.unique(), k.unique());
}

#[test]
fn ecc_key_from_pkey_parts() {
    assert_eq!(TpmEccExternalKey::from_pkey_parts(None, &[4]).unwrap_err(), TpmCryptoError::InvalidEccNid(0));
    assert_eq!(TpmEccExternalKey::from_pkey_parts(Some(1), &[4]).unwrap_err(), TpmCryptoError::InvalidEccNid(1));
    let p256 = Nid::X9_62_PRIME256V1.as_raw();
    let mut point = vec![4u8];
    point.extend_from_slice(&[0x11; 32]);
    point.extend_from_slice(&[0x22; 32]);
    let k = TpmEccExternalKey::from_pkey_parts(Some(p256), &point).unwrap();
    assert_eq!(k.curve(), TpmEllipticCurve::NistP256);
    assert_eq!(k.unique().x, vec![0x11; 32]);
    assert_eq!(k.unique().y, vec![0x22; 32]);
    assert!(matches!(
        TpmEccExternalKey::from_pkey_parts(Some(p256), &point[..33]),
        Err(TpmCryptoError::InvalidEccPoint { .. })
    ));
    let (k2, s) = TpmEccExternalKey::from_ec_parts(Some(p256), &point, vec![9; 32]).unwrap();
    assert_eq!(k2.curve(), TpmEllipticCurve::NistP256);
    assert_eq!(s, vec![9; 32]);
    assert_eq!(
        TpmEccExternalKey::from_ec_parts(Some(p256), &point, vec![9; 67]).unwrap_err(),
        TpmCryptoError::InvalidPrivateKeySize { len: 67, max: 66 }
    );
}

#[test]
fn rsa_der_of_an_ecc_key_is_refused() {
    let group = EcGroup::from_curve_name(Nid::X9_62_PRIME256V1).unwrap();
    let der = PKey::from_ec_key(EcKey::generate(&group).unwrap()).unwrap().private_key_to_der().unwrap();
    assert!(matches!(TpmRsaExternalKey::from_der(&der), Err(TpmCryptoError::InvalidRsaParameters)));
}
