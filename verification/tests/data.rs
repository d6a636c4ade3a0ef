use std::str::FromStr;
use tpm2sh::data::alg::TpmAlgId;
use tpm2sh::data::curve::TpmEccCurve;
use tpm2sh::data::ha::{TpmuHa, TpmuHaView};
use tpm2sh::data::pcr::{cast_pcr_select_prefix, cast_pcr_selection_prefix, is_selection_empty, update_remaining_selection, TpmsPcrSelect, TpmsPcrSelection};
use tpm2sh::data::sym::{TpmtSymDef, TpmuSymKeyBits, TpmuSymMode};
use tpm2sh::ecc::{Tpm2shEccCurve, TpmEllipticCurve};
use tpm2sh::error::TpmError;
use tpm2sh::hash::{TpmCryptoError, TpmHash};
use tpm2sh::pcr::{assign_pcr_values, PcrError};
use tpm2sh::text::ParseError;

#[test]
fn sym_def_roundtrip() {
    let defs = [
        TpmtSymDef { algorithm: TpmAlgId::Aes, key_bits: TpmuSymKeyBits::Aes(128), mode: TpmuSymMode::Aes(TpmAlgId::Cfb) },
        TpmtSymDef { algorithm: TpmAlgId::Xor, key_bits: TpmuSymKeyBits::Xor(TpmAlgId::Sha256), mode: TpmuSymMode::Xor(TpmAlgId::Null) },
        TpmtSymDef { algorithm: TpmAlgId::Null, key_bits: TpmuSymKeyBits::Null, mode: TpmuSymMode::Null },
    ];
    for def in defs {
        let mut buf = Vec::new();
        def.marshal(&mut buf);
        assert_eq!(buf.len(), def.len());
        buf.extend_from_slice(&[0xde, 0xad]);
        let (back, rest) = TpmtSymDef::unmarshal(&buf).unwrap();
        assert_eq!(back, def);
        assert_eq!(rest, &[0xde, 0xad]);
    }
}

#[test]
fn sym_def_bytes_and_errors() {
    let def = TpmtSymDef { algorithm: TpmAlgId::Aes, key_bits: TpmuSymKeyBits::Aes(256), mode: TpmuSymMode::Aes(TpmAlgId::Cfb) };
    let mut buf = Vec::new();
    def.marshal(&mut buf);
    assert_eq!(buf, vec![0x00, 0x06, 0x01, 0x00, 0x00, 0x43]);
    assert_eq!(TpmtSymDef::unmarshal(&[0x00, 0x01, 0, 0]).unwrap_err(), TpmError::MalformedValue);
    assert_eq!(
        TpmtSymDef::unmarshal(&[0x00, 0x06, 0x01]).unwrap_err(),
        TpmError::UnexpectedEnd { offset: 2, needed: 2, available: 1 }
    );
    assert_eq!(
        TpmtSymDef::unmarshal(&[0xff, 0xff]).unwrap_err(),
        TpmError::VariantNotAvailable { offset: 0, value: 0xffff }
    );
    assert_eq!(
        TpmtSymDef::unmarshal(&[0x00, 0x06, 0x00, 0x80, 0x77, 0x77]).unwrap_err(),
        TpmError::VariantNotAvailable { offset: 0, value: 0x7777 }
    );
}

#[test]
fn digest_union() {
    let buf = [7u8; 40];
    match TpmuHa::cast_tagged(TpmAlgId::Sha256, &buf).unwrap() {
        (TpmuHaView::Digest(d), rest) => {
            assert_eq!(d.len(), 32);
            assert_eq!(rest.len(), 8);
        }
        _ => panic!("expected a digest"),
    }
    assert!(matches!(TpmuHa::cast_tagged(TpmAlgId::Null, &buf), Ok((TpmuHaView::Null, rest)) if rest.len() == 40));
    assert_eq!(
        TpmuHa::cast_tagged(TpmAlgId::Sha512, &buf).unwrap_err(),
        TpmError::UnexpectedEnd { offset: 0, needed: 64, available: 40 }
    );
    assert_eq!(
        TpmuHa::cast_tagged(TpmAlgId::Aes, &buf).unwrap_err(),
        TpmError::VariantNotAvailable { offset: 0, value: 0x0006 }
    );
    let ha = TpmuHa::Digest(vec![1, 2, 3]);
    let mut out = Vec::new();
    ha.marshal(&mut out);
    assert_eq!(out, vec![1, 2, 3]);
    assert_eq!(ha.len(), 3);
    assert_eq!(TpmuHa::Null.len(), 0);
}

#[test]
fn hash_names() {
    assert_eq!(TpmHash::from_str("sha256"), Ok(TpmHash::Sha256));
    assert_eq!(TpmHash::from_str("sm3-256"), Ok(TpmHash::Sm3_256));
    assert_eq!(TpmHash::from_str("sha3-384"), Ok(TpmHash::Sha3_384));
    assert_eq!(TpmHash::from_str("SHA256"), Err(ParseError::VariantNotFound));
    assert_eq!(TpmHash::Shake128.to_string(), "shake128");
    for h in [TpmHash::Sha1, TpmHash::Sha512, TpmHash::Sha3_256, TpmHash::Shake256] {
        assert_eq!(TpmHash::from_str(&h.to_string()), Ok(h));
        assert_eq!(TpmHash::try_from_alg_id(h.alg_id()), Ok(h));
    }
    assert_eq!(TpmHash::Sha256.alg_id(), TpmAlgId::Sha256);
    assert_eq!(TpmHash::try_from_alg_id(TpmAlgId::Rsa), Err(TpmCryptoError::InvalidHash));
}

#[test]
fn curve_names() {
    assert_eq!(TpmEllipticCurve::from_str("nist-p256"), Ok(TpmEllipticCurve::NistP256));
    assert_eq!(TpmEllipticCurve::from_str("bp-p384-r1"), Ok(TpmEllipticCurve::BpP384R1));
    assert_eq!(TpmEllipticCurve::Curve25519.to_string(), "curve25519");
    assert!(TpmEllipticCurve::from_str("none").is_err());
    assert_eq!(Tpm2shEccCurve::from_str("none"), Ok(Tpm2shEccCurve::NoCurve));
    assert_eq!(Tpm2shEccCurve::Sm2P256.to_string(), "sm2-p256");
    assert_eq!(TpmEllipticCurve::try_from_ecc_curve(TpmEccCurve::NistP384), Ok(TpmEllipticCurve::NistP384));
    assert_eq!(
        TpmEllipticCurve::try_from_ecc_curve(TpmEccCurve::NoCurve),
        Err(TpmCryptoError::InvalidEccCurve(TpmEccCurve::NoCurve))
    );
    assert_eq!(Tpm2shEccCurve::from_ecc_curve(TpmEccCurve::NoCurve).to_ecc_curve(), TpmEccCurve::NoCurve);
    assert_eq!(TpmEllipticCurve::BnP638.to_ecc_curve(), TpmEccCurve::BnP638);
}

fn selection(hash: TpmAlgId, mask: &[u8]) -> TpmsPcrSelection {
    TpmsPcrSelection { hash, pcr_select: TpmsPcrSelect::try_from_slice(mask).unwrap() }
}

#[test]
fn pcr_select_wire() {
    let p = TpmsPcrSelect::try_from_slice(&[0x03, 0x00, 0x80]).unwrap();
    assert_eq!(p.len(), 4);
    let mut buf = Vec::new();
    p.marshal(&mut buf);
    assert_eq!(buf, vec![3, 0x03, 0x00, 0x80]);
    buf.push(0x55);
    let (bits, rest) = cast_pcr_select_prefix(&buf).unwrap();
    assert_eq!(bits, &[0x03, 0x00, 0x80]);
    assert_eq!(rest, &[0x55]);
    assert_eq!(p.pcrs(), vec![0, 1, 23]);
    assert!(TpmsPcrSelect::new().is_empty());
    assert_eq!(
        TpmsPcrSelect::try_from_slice(&[0; 5]).unwrap_err(),
        TpmError::TooManyItems { offset: 0, limit: 4, actual: 5 }
    );
    assert_eq!(cast_pcr_select_prefix(&[5, 0, 0]).unwrap_err(), TpmError::TooManyItems { offset: 0, limit: 4, actual: 5 });
    assert_eq!(cast_pcr_select_prefix(&[3, 0]).unwrap_err(), TpmError::UnexpectedEnd { offset: 1, needed: 3, available: 1 });
    let sel = selection(TpmAlgId::Sha256, &[0xff, 0x00, 0x01]);
    let mut out = Vec::new();
    sel.marshal(&mut out);
    assert_eq!(out, vec![0x00, 0x0b, 3, 0xff, 0x00, 0x01]);
    assert_eq!(sel.len(), 6);
    let (hash, bits, rest) = cast_pcr_selection_prefix(&out).unwrap();
    assert_eq!(hash, TpmAlgId::Sha256);
    assert_eq!(bits, &[0xff, 0x00, 0x01]);
    assert!(rest.is_empty());
}

#[test]
fn pcr_reading_progress() {
    let remaining = vec![selection(TpmAlgId::Sha256, &[0xff, 0x01, 0x00]), selection(TpmAlgId::Sha1, &[0x0f, 0x00, 0x00])];
    assert!(!is_selection_empty(&remaining));
    let read = vec![selection(TpmAlgId::Sha256, &[0x0f, 0x01])];
    let next = update_remaining_selection(&remaining, &read);
    assert_eq!(next[0].pcr_select.as_slice(), &[0xf0, 0x00, 0x00]);
    assert_eq!(next[1].pcr_select.as_slice(), &[0x0f, 0x00, 0x00]);
    let done = update_remaining_selection(&next, &[selection(TpmAlgId::Sha256, &[0xff, 0xff, 0xff]), selection(TpmAlgId::Sha1, &[0xff, 0xff, 0xff])]);
    assert!(is_selection_empty(&done));
}

#[test]
fn pcr_values_follow_the_selection() {
    let banks = [TpmAlgId::Sha256, TpmAlgId::Sha1];
    let out = vec![selection(TpmAlgId::Sha256, &[0x05, 0x00, 0x00]), selection(TpmAlgId::Sha1, &[0x00, 0x02, 0x00])];
    let values = vec![vec![1u8; 32], vec![2u8; 32], vec![3u8; 20]];
    let got = assign_pcr_values(&banks, &out, &values).unwrap();
    assert_eq!(got.len(), 3);
    assert_eq!((got[0].hash, got[0].index, got[0].digest[0]), (TpmAlgId::Sha256, 0, 1));
    assert_eq!((got[1].hash, got[1].index, got[1].digest[0]), (TpmAlgId::Sha256, 2, 2));
    assert_eq!((got[2].hash, got[2].index, got[2].digest.len()), (TpmAlgId::Sha1, 9, 20));
    assert_eq!(assign_pcr_values(&banks, &out, &values[..2]).unwrap_err(), PcrError::PcrDigestMissing);
    assert_eq!(assign_pcr_values(&banks[..1], &out, &values).unwrap_err(), PcrError::InvalidAlgorithm(TpmAlgId::Sha1));
}
