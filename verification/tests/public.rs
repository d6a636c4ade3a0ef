use tpm2sh::data::attest::{
    TpmsAttest, TpmsCertifyInfo, TpmsClockInfo, TpmsNvCertifyInfo, TpmsQuoteInfo, TpmsTimeAttestInfo,
    TpmsTimeInfo, TpmuAttest,
};
use tpm2sh::data::pcr::{TpmsPcrSelect, TpmsPcrSelection};
use tpm2sh::data::st::TpmSt;
use tpm2sh::data::ha::TpmuHa;
use tpm2sh::data::signature::{TpmsSignatureEcc, TpmsSignatureRsa, TpmtHa, TpmtSignature, TpmuSignature};
use tpm2sh::data::attr::{TpmaNv, TpmaNvExp};
use tpm2sh::data::ht::TpmHt;
use tpm2sh::data::nv::{TpmsNvPublic, TpmsNvPublicExpAttr, TpmtNvPublic2, TpmuNvPublic2};
use tpm2sh::data::alg::TpmAlgId;
use tpm2sh::data::attr::TpmaObject;
use tpm2sh::data::curve::TpmEccCurve;
use tpm2sh::data::public::{
    TpmsEccParms, TpmsEccPoint, TpmsKeyedhashParms, TpmsRsaParms, TpmtPublic, TpmtSensitive,
    TpmuPublicId, TpmuPublicParms, TpmuSensitiveComposite,
};
use tpm2sh::data::schemes::{
    TpmsSchemeHash, TpmsSchemeXor, TpmtEccScheme, TpmtKdfScheme, TpmtKeyedhashScheme,
    TpmtRsaScheme, TpmtSigScheme, TpmuAsymScheme, TpmuKdfScheme, TpmuKeyedhashScheme,
    TpmuSigScheme,
};
use tpm2sh::data::sym::{TpmtSymDef, TpmuSymKeyBits, TpmuSymMode};
use tpm2sh::error::TpmError;

fn null_sym() -> TpmtSymDef {
    TpmtSymDef { algorithm: TpmAlgId::Null, key_bits: TpmuSymKeyBits::Null, mode: TpmuSymMode::Null }
}

fn aes_cfb() -> TpmtSymDef {
    TpmtSymDef { algorithm: TpmAlgId::Aes, key_bits: TpmuSymKeyBits::Aes(128), mode: TpmuSymMode::Aes(TpmAlgId::Cfb) }
}

fn rsa_public() -> TpmtPublic {
    TpmtPublic {
        object_type: TpmAlgId::Rsa,
        name_alg: TpmAlgId::Sha256,
        object_attributes: TpmaObject(0x0003_0072),
        auth_policy: vec![],
        parameters: TpmuPublicParms::Rsa(TpmsRsaParms {
            symmetric: aes_cfb(),
            scheme: TpmtRsaScheme { scheme: TpmAlgId::Null, details: TpmuAsymScheme::Null },
            key_bits: 2048,
            exponent: 0,
        }),
        unique: TpmuPublicId::Rsa(vec![0xab; 256]),
    }
}

fn ecc_public() -> TpmtPublic {
    TpmtPublic {
        object_type: TpmAlgId::Ecc,
        name_alg: TpmAlgId::Sha384,
        object_attributes: TpmaObject(0x0004_0072),
        auth_policy: vec![1, 2, 3, 4],
        parameters: TpmuPublicParms::Ecc(TpmsEccParms {
            symmetric: null_sym(),
            scheme: TpmtEccScheme {
                scheme: TpmAlgId::Ecdsa,
                details: TpmuAsymScheme::Hash(TpmsSchemeHash { hash_alg: TpmAlgId::Sha384 }),
            },
            curve_id: TpmEccCurve::NistP384,
            kdf: TpmtKdfScheme { scheme: TpmAlgId::Null },
        }),
        unique: TpmuPublicId::Ecc(TpmsEccPoint { x: vec![7; 48], y: vec![9; 48] }),
    }
}

#[test]
fn public_area_exact_bytes() {
    let public = TpmtPublic {
        object_type: TpmAlgId::KeyedHash,
        name_alg: TpmAlgId::Sha256,
        object_attributes: TpmaObject(0x12),
        auth_policy: vec![],
        parameters: TpmuPublicParms::KeyedHash(TpmsKeyedhashParms {
            scheme: TpmtKeyedhashScheme { scheme: TpmAlgId::Null, details: TpmuKeyedhashScheme::Null },
        }),
        unique: TpmuPublicId::KeyedHash(vec![0xaa, 0xbb]),
    };
    let mut buf = Vec::new();
    public.marshal(&mut buf);
    assert_eq!(
        buf,
        vec![0x00, 0x08, 0x00, 0x0b, 0x00, 0x00, 0x00, 0x12, 0x00, 0x00, 0x00, 0x10, 0x00, 0x02, 0xaa, 0xbb]
    );
    assert_eq!(public.len(), 16);
}

#[test]
fn public_area_roundtrip() {
    for public in [rsa_public(), ecc_public()] {
        let mut buf = Vec::new();
        public.marshal(&mut buf);
        assert_eq!(buf.len(), public.len());
        buf.push(0x5a);
        let (back, rest) = TpmtPublic::unmarshal(&buf).unwrap();
        assert_eq!(back, public);
        assert_eq!(rest, &[0x5a]);
    }
}

#[test]
fn public_area_errors() {
    let mut buf = Vec::new();
    rsa_public().marshal(&mut buf);
    buf.truncate(buf.len() - 1);
    assert!(matches!(TpmtPublic::unmarshal(&buf), Err(TpmError::UnexpectedEnd { .. })));

    // An object type that selects no unique identifier.
    let bad = [0x00, 0x06, 0x00, 0x0b, 0, 0, 0, 0, 0, 0];
    assert_eq!(
        TpmtPublic::unmarshal(&bad),
        Err(TpmError::VariantNotAvailable { offset: 0, value: 0x0006 })
    );

    // An unknown algorithm identifier.
    let unknown = [0x77, 0x77];
    assert_eq!(
        TpmtPublic::unmarshal(&unknown),
        Err(TpmError::VariantNotAvailable { offset: 0, value: 0x7777 })
    );

    // A policy longer than a digest.
    let mut long = vec![0x00, 0x10, 0x00, 0x0b, 0, 0, 0, 0, 0x00, 65];
    long.extend_from_slice(&[0u8; 65]);
    assert!(matches!(TpmtPublic::unmarshal(&long), Err(TpmError::TooManyItems { limit: 64, actual: 65, .. })));
}

#[test]
fn null_public_area() {
    let public = TpmtPublic {
        object_type: TpmAlgId::Null,
        name_alg: TpmAlgId::Null,
        object_attributes: TpmaObject(0),
        auth_policy: vec![],
        parameters: TpmuPublicParms::Null,
        unique: TpmuPublicId::Null,
    };
    let mut buf = Vec::new();
    public.marshal(&mut buf);
    assert_eq!(buf, vec![0x00, 0x10, 0x00, 0x10, 0, 0, 0, 0, 0, 0]);
    let (back, rest) = TpmtPublic::unmarshal(&buf).unwrap();
    assert_eq!(back, public);
    assert!(rest.is_empty());
}

#[test]
fn sensitive_area_roundtrip() {
    let sensitive = TpmtSensitive {
        sensitive_type: TpmAlgId::Ecc,
        auth_value: vec![1, 2],
        seed_value: vec![],
        sensitive: TpmuSensitiveComposite::Ecc(vec![0x11; 32]),
    };
    let mut buf = Vec::new();
    sensitive.marshal(&mut buf);
    assert_eq!(buf.len(), sensitive.len());
    assert_eq!(&buf[..8], &[0x00, 0x23, 0x00, 0x02, 1, 2, 0x00, 0x00]);
    let (back, rest) = TpmtSensitive::unmarshal(&buf).unwrap();
    assert_eq!(back, sensitive);
    assert!(rest.is_empty());
}

#[test]
fn sensitive_area_rejects_null_type() {
    let buf = [0x00, 0x10, 0x00, 0x00, 0x00, 0x00, 0x00, 0x00];
    assert_eq!(TpmtSensitive::unmarshal(&buf), Err(TpmError::MalformedValue));
}

#[test]
fn union_members_by_tag() {
    let bytes = [0x00, 0x0b, 0xff];
    let (d, rest) = TpmuAsymScheme::cast_tagged(TpmAlgId::Rsassa, &bytes).unwrap();
    assert_eq!(d, TpmuAsymScheme::Hash(TpmsSchemeHash { hash_alg: TpmAlgId::Sha256 }));
    assert_eq!(rest, &[0xff]);
    let (d, rest) = TpmuAsymScheme::cast_tagged(TpmAlgId::Rsaes, &bytes).unwrap();
    assert_eq!(d, TpmuAsymScheme::Null);
    assert_eq!(rest, &bytes);
    assert_eq!(
        TpmuAsymScheme::cast_tagged(TpmAlgId::Aes, &bytes),
        Err(TpmError::VariantNotAvailable { offset: 0, value: 0x0006 })
    );

    let xor = [0x00, 0x0b, 0x00, 0x22];
    let (d, _) = TpmuKeyedhashScheme::cast_tagged(TpmAlgId::Xor, &xor).unwrap();
    assert_eq!(
        d,
        TpmuKeyedhashScheme::Xor(TpmsSchemeXor {
            hash_alg: TpmAlgId::Sha256,
            kdf: TpmtKdfScheme { scheme: TpmAlgId::Kdf1Sp800_108 },
        })
    );
    let (d, _) = TpmuSigScheme::cast_tagged(TpmAlgId::Hmac, &bytes).unwrap();
    assert_eq!(d, TpmuSigScheme::Hmac(TpmsSchemeHash { hash_alg: TpmAlgId::Sha256 }));
    let (d, _) = TpmuKdfScheme::cast_tagged(TpmAlgId::Kdf2, &bytes).unwrap();
    assert_eq!(d, TpmuKdfScheme::Kdf2(TpmsSchemeHash { hash_alg: TpmAlgId::Sha256 }));
    let (d, _) = TpmuPublicParms::cast_tagged(TpmAlgId::Null, &bytes).unwrap();
    assert_eq!(d, TpmuPublicParms::Null);
    assert_eq!(TpmuPublicId::cast_tagged(TpmAlgId::Sha1, &bytes), Err(TpmError::MalformedValue));
    let (d, _) = TpmuSensitiveComposite::cast_tagged(TpmAlgId::SymCipher, &[0x00, 0x01, 0x42]).unwrap();
    assert_eq!(d, TpmuSensitiveComposite::Sym(vec![0x42]));
}

#[test]
fn scheme_roundtrips() {
    let sig = TpmtSigScheme {
        scheme: TpmAlgId::Ecdsa,
        details: TpmuSigScheme::Hash(TpmsSchemeHash { hash_alg: TpmAlgId::Sha256 }),
    };
    let mut buf = Vec::new();
    sig.marshal(&mut buf);
    assert_eq!(buf, vec![0x00, 0x18, 0x00, 0x0b]);
    assert_eq!(TpmtSigScheme::unmarshal(&buf).unwrap().0, sig);

    let keyed = TpmtKeyedhashScheme {
        scheme: TpmAlgId::Hmac,
        details: TpmuKeyedhashScheme::Hmac(TpmsSchemeHash { hash_alg: TpmAlgId::Sha1 }),
    };
    let mut buf = Vec::new();
    keyed.marshal(&mut buf);
    assert_eq!(buf.len(), keyed.len());
    assert_eq!(TpmtKeyedhashScheme::unmarshal(&buf).unwrap().0, keyed);

    let rsa = TpmtRsaScheme { scheme: TpmAlgId::Rsaes, details: TpmuAsymScheme::Null };
    let mut buf = Vec::new();
    rsa.marshal(&mut buf);
    assert_eq!(buf, vec![0x00, 0x15]);
    assert_eq!(TpmtRsaScheme::unmarshal(&buf).unwrap().0, rsa);
}

#[test]
fn ecc_curve_encoding() {
    assert_eq!(TpmEccCurve::NistP256.value(), 0x0003);
    assert_eq!(TpmEccCurve::from_u16(0x0020), Some(TpmEccCurve::Sm2P256));
    assert_eq!(TpmEccCurve::from_u16(0x0006), None);
    let point = TpmsEccPoint { x: vec![1], y: vec![2, 3] };
    let mut buf = Vec::new();
    point.marshal(&mut buf);
    assert_eq!(buf, vec![0, 1, 1, 0, 2, 2, 3]);
    assert_eq!(point.len(), 7);
}

#[test]
fn signature_roundtrips() {
    let sigs = [
        TpmtSignature {
            sig_alg: TpmAlgId::Rsassa,
            signature: TpmuSignature::Rsassa(TpmsSignatureRsa { hash: TpmAlgId::Sha256, sig: vec![0x33; 256] }),
        },
        TpmtSignature {
            sig_alg: TpmAlgId::Ecdsa,
            signature: TpmuSignature::Ecdsa(TpmsSignatureEcc {
                hash: TpmAlgId::Sha384,
                signature_r: vec![1; 48],
                signature_s: vec![2; 48],
            }),
        },
        TpmtSignature {
            sig_alg: TpmAlgId::Hmac,
            signature: TpmuSignature::Hmac(TpmtHa { hash_alg: TpmAlgId::Sha1, digest: TpmuHa::Digest(vec![5; 20]) }),
        },
        TpmtSignature { sig_alg: TpmAlgId::Null, signature: TpmuSignature::Null },
    ];
    for sig in sigs {
        let mut buf = Vec::new();
        sig.marshal(&mut buf);
        assert_eq!(buf.len(), sig.len());
        buf.extend_from_slice(&[9, 9]);
        let (back, rest) = TpmtSignature::unmarshal(&buf).unwrap();
        assert_eq!(back, sig);
        assert_eq!(rest, &[9, 9]);
    }
    // An HMAC digest shorter than its algorithm's size.
    let short = [0x00, 0x05, 0x00, 0x04, 1, 2, 3];
    assert_eq!(
        TpmtSignature::unmarshal(&short),
        Err(TpmError::UnexpectedEnd { offset: 0, needed: 20, available: 3 })
    );
    let bad = [0x00, 0x06];
    assert_eq!(TpmtSignature::unmarshal(&bad), Err(TpmError::VariantNotAvailable { offset: 0, value: 6 }));
    let (ha, rest) = TpmtHa::unmarshal(&[0x00, 0x10, 7]).unwrap();
    assert_eq!(ha, TpmtHa { hash_alg: TpmAlgId::Null, digest: TpmuHa::Null });
    assert_eq!(rest, &[7]);
}

#[test]
fn nv_public_roundtrips() {
    let nv = TpmsNvPublic {
        nv_index: 0x0150_0016,
        name_alg: TpmAlgId::Sha256,
        attributes: TpmaNv(TpmaNv::OWNERWRITE | TpmaNv::OWNERREAD),
        auth_policy: vec![],
        data_size: 32,
    };
    let mut buf = Vec::new();
    nv.marshal(&mut buf);
    assert_eq!(buf, vec![0x01, 0x50, 0x00, 0x16, 0x00, 0x0b, 0x00, 0x02, 0x00, 0x02, 0x00, 0x00, 0x00, 0x20]);
    assert_eq!(nv.len(), 14);
    let areas = [
        TpmtNvPublic2 { handle_type: TpmHt::NvIndex, public_area: TpmuNvPublic2::NvIndex(nv.clone()) },
        TpmtNvPublic2 { handle_type: TpmHt::PermanentNv, public_area: TpmuNvPublic2::PermanentNv(nv.clone()) },
        TpmtNvPublic2 {
            handle_type: TpmHt::ExternalNv,
            public_area: TpmuNvPublic2::ExternalNv(TpmsNvPublicExpAttr {
                nv_index: 0x1100_0001,
                name_alg: TpmAlgId::Sha384,
                attributes: TpmaNvExp(TpmaNvExp::ENCRYPTION | 0x42),
                auth_policy: vec![0xee; 48],
                data_size: 7,
            }),
        },
    ];
    for area in areas {
        let mut buf = Vec::new();
        area.marshal(&mut buf);
        let (back, rest) = TpmtNvPublic2::unmarshal(&buf).unwrap();
        assert_eq!(back, area);
        assert!(rest.is_empty());
    }
    assert_eq!(TpmtNvPublic2::unmarshal(&[0x80]), Err(TpmError::VariantNotAvailable { offset: 0, value: 0x80 }));
    assert_eq!(TpmtNvPublic2::unmarshal(&[0x05]), Err(TpmError::VariantNotAvailable { offset: 0, value: 0x05 }));
    assert_eq!(
        TpmuNvPublic2::cast_tagged(TpmHt::ExternalNv, &[0, 0, 0, 1, 0, 0x0b, 1, 2, 3]),
        Err(TpmError::UnexpectedEnd { offset: 6, needed: 8, available: 3 })
    );
}

fn clock() -> TpmsClockInfo {
    TpmsClockInfo { clock: 0x0102_0304_0506_0708, reset_count: 3, restart_count: 4, safe: true }
}

#[test]
fn attestation_roundtrips() {
    let quote = TpmsAttest {
        attest_type: TpmSt::AttestQuote,
        qualified_signer: vec![0x00, 0x0b, 1, 2, 3],
        extra_data: vec![0xaa; 16],
        clock_info: clock(),
        firmware_version: 0x2000_0001,
        attested: TpmuAttest::Quote(TpmsQuoteInfo {
            pcr_select: vec![
                TpmsPcrSelection { hash: TpmAlgId::Sha256, pcr_select: TpmsPcrSelect::try_from_slice(&[0x03, 0x00, 0x80]).unwrap() },
                TpmsPcrSelection { hash: TpmAlgId::Sha1, pcr_select: TpmsPcrSelect::try_from_slice(&[0x01]).unwrap() },
            ],
            pcr_digest: vec![0x55; 32],
        }),
    };
    let time = TpmsAttest {
        attest_type: TpmSt::AttestTime,
        qualified_signer: vec![],
        extra_data: vec![],
        clock_info: clock(),
        firmware_version: 7,
        attested: TpmuAttest::Time(TpmsTimeAttestInfo {
            time: TpmsTimeInfo { time: 99, clock_info: clock() },
            firmware_version: 7,
        }),
    };
    let nv = TpmsAttest {
        attest_type: TpmSt::AttestNv,
        qualified_signer: vec![1],
        extra_data: vec![2],
        clock_info: clock(),
        firmware_version: 0,
        attested: TpmuAttest::Nv(TpmsNvCertifyInfo { index_name: vec![3; 34], offset: 5, nv_contents: vec![6; 100] }),
    };
    let certify = TpmsAttest {
        attest_type: TpmSt::AttestCertify,
        qualified_signer: vec![],
        extra_data: vec![],
        clock_info: clock(),
        firmware_version: 0,
        attested: TpmuAttest::Certify(TpmsCertifyInfo { name: vec![4; 34], qualified_name: vec![5; 34] }),
    };
    for attest in [quote, time, nv, certify] {
        let mut buf = Vec::new();
        attest.marshal(&mut buf);
        assert_eq!(buf.len(), attest.len());
        assert_eq!(&buf[..4], &[0xff, 0x54, 0x43, 0x47]);
        buf.push(0x11);
        let (back, rest) = TpmsAttest::cast_prefix_field(&buf).unwrap();
        assert_eq!(back, attest);
        assert_eq!(rest, &[0x11]);
    }
}

#[test]
fn attestation_errors() {
    assert_eq!(
        TpmsAttest::cast_prefix_field(&[0xff, 0x54, 0x43, 0x48, 0x80, 0x18]),
        Err(TpmError::InvalidMagicNumber { offset: 0, value: 0xff54_4348 })
    );
    // A clock whose safe flag is 2.
    let mut clock_bytes = Vec::new();
    clock().marshal(&mut clock_bytes);
    assert_eq!(clock_bytes.len(), 17);
    assert_eq!(clock_bytes[16], 1);
    let mut bad = vec![0xff, 0x54, 0x43, 0x47, 0x80, 0x19, 0, 0, 0, 0];
    clock_bytes[16] = 2;
    bad.extend_from_slice(&clock_bytes);
    assert_eq!(TpmsAttest::cast_prefix_field(&bad), Err(TpmError::InvalidBoolean { offset: 0, value: 2 }));
    // A quote that selects nine banks.
    let nine = [0, 0, 0, 9];
    assert_eq!(
        TpmuAttest::cast_tagged(TpmSt::AttestQuote, &nine),
        Err(TpmError::TooManyItems { offset: 0, limit: 8, actual: 9 })
    );
    assert_eq!(
        TpmuAttest::cast_tagged(TpmSt::Sessions, &nine),
        Err(TpmError::VariantNotAvailable { offset: 0, value: 0x8002 })
    );
}
