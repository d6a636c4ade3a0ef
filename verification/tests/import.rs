use openssl::ec::{EcGroup, EcKey};
use openssl::nid::Nid;
use openssl::pkey::PKey;
use openssl::rsa::Rsa;
use tpm2sh::data::alg::TpmAlgId;
use tpm2sh::data::curve::TpmEccCurve;
use tpm2sh::data::public::{TpmuPublicId, TpmuPublicParms};
use tpm2sh::data::sym::{TpmtSymDef, TpmuSymKeyBits, TpmuSymMode};
use tpm2sh::key::{curve_of_nid, ecc_to_public_id, rsa_to_public_id, KeyError};

fn null_sym() -> TpmtSymDef {
    TpmtSymDef { algorithm: TpmAlgId::Null, key_bits: TpmuSymKeyBits::Null, mode: TpmuSymMode::Null }
}

fn ec_pkey(nid: Nid) -> PKey<openssl::pkey::Private> {
    let group = EcGroup::from_curve_name(nid).unwrap();
    PKey::from_ec_key(EcKey::generate(&group).unwrap()).unwrap()
}

#[test]
fn ecc_key_import_p256() {
    let public = ecc_to_public_id(&ec_pkey(Nid::X9_62_PRIME256V1), TpmAlgId::Sha256, null_sym()).unwrap();
    assert_eq!(public.object_type, TpmAlgId::Ecc);
    assert_eq!(public.name_alg, TpmAlgId::Sha256);
    match &public.parameters {
        TpmuPublicParms::Ecc(p) => assert_eq!(p.curve_id, TpmEccCurve::NistP256),
        _ => panic!("not an ECC key"),
    }
    match &public.unique {
        TpmuPublicId::Ecc(point) => {
            assert_eq!(point.x.len(), 32);
            assert_eq!(point.y.len(), 32);
        }
        _ => panic!("not an ECC point"),
    }
}

#[test]
fn ecc_key_import_p521() {
    let public = ecc_to_public_id(&ec_pkey(Nid::SECP521R1), TpmAlgId::Sha512, null_sym()).unwrap();
    match &public.unique {
        TpmuPublicId::Ecc(point) => {
            assert_eq!(point.x.len(), 66);
            assert_eq!(point.y.len(), 66);
        }
        _ => panic!("not an ECC point"),
    }
}

#[test]
fn ecc_key_import_refuses_other_curves() {
    assert_eq!(
        ecc_to_public_id(&ec_pkey(Nid::SECP256K1), TpmAlgId::Sha256, null_sym()),
        Err(KeyError::InvalidEccCurve("secp256k1".to_string()))
    );
}

#[test]
fn curve_of_nid_maps_nist_curves() {
    assert_eq!(curve_of_nid(Nid::X9_62_PRIME256V1.as_raw()), Some(TpmEccCurve::NistP256));
    assert_eq!(curve_of_nid(Nid::SECP384R1.as_raw()), Some(TpmEccCurve::NistP384));
    assert_eq!(curve_of_nid(Nid::SECP521R1.as_raw()), Some(TpmEccCurve::NistP521));
    assert_eq!(curve_of_nid(Nid::SECP256K1.as_raw()), None);
}

#[test]
fn rsa_key_import() {
    let rsa = Rsa::generate(2048).unwrap();
    let modulus = rsa.n().to_vec();
    let pkey = PKey::from_rsa(rsa).unwrap();
    let public = rsa_to_public_id(&pkey, TpmAlgId::Sha256, null_sym()).unwrap();
    assert_eq!(public.object_type, TpmAlgId::Rsa);
    match &public.parameters {
        TpmuPublicParms::Rsa(p) => {
            assert_eq!(p.key_bits, 2048);
            assert_eq!(p.exponent, 0);
        }
        _ => panic!("not an RSA key"),
    }
    assert_eq!(public.unique, TpmuPublicId::Rsa(modulus));
}

#[test]
fn rsa_import_of_ecc_key_fails() {
    assert!(matches!(
        rsa_to_public_id(&ec_pkey(Nid::X9_62_PRIME256V1), TpmAlgId::Sha256, null_sym()),
        Err(KeyError::Crypto(_))
    ));
}
