use vstd::prelude::*;

verus! {

/// A TPM 2.0 algorithm identifier (`TPM_ALG_ID`).
#[allow(non_camel_case_types)]
#[derive(Debug, Clone, Copy, PartialEq, Eq, Structural)]
pub enum TpmAlgId {
    Rsa,
    Tdes,
    Sha1,
    Hmac,
    Aes,
    Mgf1,
    KeyedHash,
    Xor,
    Sha256,
    Sha384,
    Sha512,
    Sha256_192,
    Null,
    Sm3_256,
    Sm4,
    Rsassa,
    Rsaes,
    Rsapss,
    Oaep,
    Ecdsa,
    Ecdh,
    Ecdaa,
    Sm2,
    Ecschnorr,
    Ecmqv,
    Kdf1Sp800_56A,
    Kdf2,
    Kdf1Sp800_108,
    Ecc,
    SymCipher,
    Camellia,
    Sha3_256,
    Sha3_384,
    Sha3_512,
    Shake128,
    Shake256,
    Shake256_192,
    Shake256_256,
    Shake256_512,
    Cmac,
    Ctr,
    Ofb,
    Cbc,
    Cfb,
    Ecb,
    Ccm,
    Gcm,
    Kw,
    Kwp,
    Eax,
    Eddsa,
    EddsaPh,
    Lms,
    Xmss,
    KeyedXof,
    KmacXof128,
    KmacXof256,
    Kmac128,
    Kmac256,
}

impl TpmAlgId {
    /// The numeric encoding of this value.
    pub open spec fn spec_value(self) -> u16 {
        match self {
            TpmAlgId::Rsa => 0x0001,
            TpmAlgId::Tdes => 0x0003,
            TpmAlgId::Sha1 => 0x0004,
            TpmAlgId::Hmac => 0x0005,
            TpmAlgId::Aes => 0x0006,
            TpmAlgId::Mgf1 => 0x0007,
            TpmAlgId::KeyedHash => 0x0008,
            TpmAlgId::Xor => 0x000A,
            TpmAlgId::Sha256 => 0x000B,
            TpmAlgId::Sha384 => 0x000C,
            TpmAlgId::Sha512 => 0x000D,
            TpmAlgId::Sha256_192 => 0x000E,
            TpmAlgId::Null => 0x0010,
            TpmAlgId::Sm3_256 => 0x0012,
            TpmAlgId::Sm4 => 0x0013,
            TpmAlgId::Rsassa => 0x0014,
            TpmAlgId::Rsaes => 0x0015,
            TpmAlgId::Rsapss => 0x0016,
            TpmAlgId::Oaep => 0x0017,
            TpmAlgId::Ecdsa => 0x0018,
            TpmAlgId::Ecdh => 0x0019,
            TpmAlgId::Ecdaa => 0x001A,
            TpmAlgId::Sm2 => 0x001B,
            TpmAlgId::Ecschnorr => 0x001C,
            TpmAlgId::Ecmqv => 0x001D,
            TpmAlgId::Kdf1Sp800_56A => 0x0020,
            TpmAlgId::Kdf2 => 0x0021,
            TpmAlgId::Kdf1Sp800_108 => 0x0022,
            TpmAlgId::Ecc => 0x0023,
            TpmAlgId::SymCipher => 0x0025,
            TpmAlgId::Camellia => 0x0026,
            TpmAlgId::Sha3_256 => 0x0027,
            TpmAlgId::Sha3_384 => 0x0028,
            TpmAlgId::Sha3_512 => 0x0029,
            TpmAlgId::Shake128 => 0x002A,
            TpmAlgId::Shake256 => 0x002B,
            TpmAlgId::Shake256_192 => 0x002C,
            TpmAlgId::Shake256_256 => 0x002D,
            TpmAlgId::Shake256_512 => 0x002E,
            TpmAlgId::Cmac => 0x003F,
            TpmAlgId::Ctr => 0x0040,
            TpmAlgId::Ofb => 0x0041,
            TpmAlgId::Cbc => 0x0042,
            TpmAlgId::Cfb => 0x0043,
            TpmAlgId::Ecb => 0x0044,
            TpmAlgId::Ccm => 0x0050,
            TpmAlgId::Gcm => 0x0051,
            TpmAlgId::Kw => 0x0052,
            TpmAlgId::Kwp => 0x0053,
            TpmAlgId::Eax => 0x0054,
            TpmAlgId::Eddsa => 0x0060,
            TpmAlgId::EddsaPh => 0x0061,
            TpmAlgId::Lms => 0x0070,
            TpmAlgId::Xmss => 0x0071,
            TpmAlgId::KeyedXof => 0x0080,
            TpmAlgId::KmacXof128 => 0x0081,
            TpmAlgId::KmacXof256 => 0x0082,
            TpmAlgId::Kmac128 => 0x0090,
            TpmAlgId::Kmac256 => 0x0091,
        }
    }

    /// Returns the numeric encoding.
    #[verifier::when_used_as_spec(spec_value)]
    pub fn value(self) -> (v: u16)
        ensures
            v == self.spec_value(),
    {
        match self {
            TpmAlgId::Rsa => 0x0001,
            TpmAlgId::Tdes => 0x0003,
            TpmAlgId::Sha1 => 0x0004,
            TpmAlgId::Hmac => 0x0005,
            TpmAlgId::Aes => 0x0006,
            TpmAlgId::Mgf1 => 0x0007,
            TpmAlgId::KeyedHash => 0x0008,
            TpmAlgId::Xor => 0x000A,
            TpmAlgId::Sha256 => 0x000B,
            TpmAlgId::Sha384 => 0x000C,
            TpmAlgId::Sha512 => 0x000D,
            TpmAlgId::Sha256_192 => 0x000E,
            TpmAlgId::Null => 0x0010,
            TpmAlgId::Sm3_256 => 0x0012,
            TpmAlgId::Sm4 => 0x0013,
            TpmAlgId::Rsassa => 0x0014,
            TpmAlgId::Rsaes => 0x0015,
            TpmAlgId::Rsapss => 0x0016,
            TpmAlgId::Oaep => 0x0017,
            TpmAlgId::Ecdsa => 0x0018,
            TpmAlgId::Ecdh => 0x0019,
            TpmAlgId::Ecdaa => 0x001A,
            TpmAlgId::Sm2 => 0x001B,
            TpmAlgId::Ecschnorr => 0x001C,
            TpmAlgId::Ecmqv => 0x001D,
            TpmAlgId::Kdf1Sp800_56A => 0x0020,
            TpmAlgId::Kdf2 => 0x0021,
            TpmAlgId::Kdf1Sp800_108 => 0x0022,
            TpmAlgId::Ecc => 0x0023,
            TpmAlgId::SymCipher => 0x0025,
            TpmAlgId::Camellia => 0x0026,
            TpmAlgId::Sha3_256 => 0x0027,
            TpmAlgId::Sha3_384 => 0x0028,
            TpmAlgId::Sha3_512 => 0x0029,
            TpmAlgId::Shake128 => 0x002A,
            TpmAlgId::Shake256 => 0x002B,
            TpmAlgId::Shake256_192 => 0x002C,
            TpmAlgId::Shake256_256 => 0x002D,
            TpmAlgId::Shake256_512 => 0x002E,
            TpmAlgId::Cmac => 0x003F,
            TpmAlgId::Ctr => 0x0040,
            TpmAlgId::Ofb => 0x0041,
            TpmAlgId::Cbc => 0x0042,
            TpmAlgId::Cfb => 0x0043,
            TpmAlgId::Ecb => 0x0044,
            TpmAlgId::Ccm => 0x0050,
            TpmAlgId::Gcm => 0x0051,
            TpmAlgId::Kw => 0x0052,
            TpmAlgId::Kwp => 0x0053,
            TpmAlgId::Eax => 0x0054,
            TpmAlgId::Eddsa => 0x0060,
            TpmAlgId::EddsaPh => 0x0061,
            TpmAlgId::Lms => 0x0070,
            TpmAlgId::Xmss => 0x0071,
            TpmAlgId::KeyedXof => 0x0080,
            TpmAlgId::KmacXof128 => 0x0081,
            TpmAlgId::KmacXof256 => 0x0082,
            TpmAlgId::Kmac128 => 0x0090,
            TpmAlgId::Kmac256 => 0x0091,
        }
    }

    /// Decodes a numeric value, if it encodes a variant.
    pub fn from_u16(value: u16) -> (r: Option<TpmAlgId>)
        ensures
            r == spec_tpm_alg_id_from_u16(value),
    {
        match value {
            0x0001 => Some(TpmAlgId::Rsa),
            0x0003 => Some(TpmAlgId::Tdes),
            0x0004 => Some(TpmAlgId::Sha1),
            0x0005 => Some(TpmAlgId::Hmac),
            0x0006 => Some(TpmAlgId::Aes),
            0x0007 => Some(TpmAlgId::Mgf1),
            0x0008 => Some(TpmAlgId::KeyedHash),
            0x000A => Some(TpmAlgId::Xor),
            0x000B => Some(TpmAlgId::Sha256),
            0x000C => Some(TpmAlgId::Sha384),
            0x000D => Some(TpmAlgId::Sha512),
            0x000E => Some(TpmAlgId::Sha256_192),
            0x0010 => Some(TpmAlgId::Null),
            0x0012 => Some(TpmAlgId::Sm3_256),
            0x0013 => Some(TpmAlgId::Sm4),
            0x0014 => Some(TpmAlgId::Rsassa),
            0x0015 => Some(TpmAlgId::Rsaes),
            0x0016 => Some(TpmAlgId::Rsapss),
            0x0017 => Some(TpmAlgId::Oaep),
            0x0018 => Some(TpmAlgId::Ecdsa),
            0x0019 => Some(TpmAlgId::Ecdh),
            0x001A => Some(TpmAlgId::Ecdaa),
            0x001B => Some(TpmAlgId::Sm2),
            0x001C => Some(TpmAlgId::Ecschnorr),
            0x001D => Some(TpmAlgId::Ecmqv),
            0x0020 => Some(TpmAlgId::Kdf1Sp800_56A),
            0x0021 => Some(TpmAlgId::Kdf2),
            0x0022 => Some(TpmAlgId::Kdf1Sp800_108),
            0x0023 => Some(TpmAlgId::Ecc),
            0x0025 => Some(TpmAlgId::SymCipher),
            0x0026 => Some(TpmAlgId::Camellia),
            0x0027 => Some(TpmAlgId::Sha3_256),
            0x0028 => Some(TpmAlgId::Sha3_384),
            0x0029 => Some(TpmAlgId::Sha3_512),
            0x002A => Some(TpmAlgId::Shake128),
            0x002B => Some(TpmAlgId::Shake256),
            0x002C => Some(TpmAlgId::Shake256_192),
            0x002D => Some(TpmAlgId::Shake256_256),
            0x002E => Some(TpmAlgId::Shake256_512),
            0x003F => Some(TpmAlgId::Cmac),
            0x0040 => Some(TpmAlgId::Ctr),
            0x0041 => Some(TpmAlgId::Ofb),
            0x0042 => Some(TpmAlgId::Cbc),
            0x0043 => Some(TpmAlgId::Cfb),
            0x0044 => Some(TpmAlgId::Ecb),
            0x0050 => Some(TpmAlgId::Ccm),
            0x0051 => Some(TpmAlgId::Gcm),
            0x0052 => Some(TpmAlgId::Kw),
            0x0053 => Some(TpmAlgId::Kwp),
            0x0054 => Some(TpmAlgId::Eax),
            0x0060 => Some(TpmAlgId::Eddsa),
            0x0061 => Some(TpmAlgId::EddsaPh),
            0x0070 => Some(TpmAlgId::Lms),
            0x0071 => Some(TpmAlgId::Xmss),
            0x0080 => Some(TpmAlgId::KeyedXof),
            0x0081 => Some(TpmAlgId::KmacXof128),
            0x0082 => Some(TpmAlgId::KmacXof256),
            0x0090 => Some(TpmAlgId::Kmac128),
            0x0091 => Some(TpmAlgId::Kmac256),
            _ => None,
        }
    }
}

/// The variant of `TpmAlgId` encoded by `value`, if there is one.
pub open spec fn spec_tpm_alg_id_from_u16(value: u16) -> Option<TpmAlgId> {
    match value {
        0x0001 => Some(TpmAlgId::Rsa),
        0x0003 => Some(TpmAlgId::Tdes),
        0x0004 => Some(TpmAlgId::Sha1),
        0x0005 => Some(TpmAlgId::Hmac),
        0x0006 => Some(TpmAlgId::Aes),
        0x0007 => Some(TpmAlgId::Mgf1),
        0x0008 => Some(TpmAlgId::KeyedHash),
        0x000A => Some(TpmAlgId::Xor),
        0x000B => Some(TpmAlgId::Sha256),
        0x000C => Some(TpmAlgId::Sha384),
        0x000D => Some(TpmAlgId::Sha512),
        0x000E => Some(TpmAlgId::Sha256_192),
        0x0010 => Some(TpmAlgId::Null),
        0x0012 => Some(TpmAlgId::Sm3_256),
        0x0013 => Some(TpmAlgId::Sm4),
        0x0014 => Some(TpmAlgId::Rsassa),
        0x0015 => Some(TpmAlgId::Rsaes),
        0x0016 => Some(TpmAlgId::Rsapss),
        0x0017 => Some(TpmAlgId::Oaep),
        0x0018 => Some(TpmAlgId::Ecdsa),
        0x0019 => Some(TpmAlgId::Ecdh),
        0x001A => Some(TpmAlgId::Ecdaa),
        0x001B => Some(TpmAlgId::Sm2),
        0x001C => Some(TpmAlgId::Ecschnorr),
        0x001D => Some(TpmAlgId::Ecmqv),
        0x0020 => Some(TpmAlgId::Kdf1Sp800_56A),
        0x0021 => Some(TpmAlgId::Kdf2),
        0x0022 => Some(TpmAlgId::Kdf1Sp800_108),
        0x0023 => Some(TpmAlgId::Ecc),
        0x0025 => Some(TpmAlgId::SymCipher),
        0x0026 => Some(TpmAlgId::Camellia),
        0x0027 => Some(TpmAlgId::Sha3_256),
        0x0028 => Some(TpmAlgId::Sha3_384),
        0x0029 => Some(TpmAlgId::Sha3_512),
        0x002A => Some(TpmAlgId::Shake128),
        0x002B => Some(TpmAlgId::Shake256),
        0x002C => Some(TpmAlgId::Shake256_192),
        0x002D => Some(TpmAlgId::Shake256_256),
        0x002E => Some(TpmAlgId::Shake256_512),
        0x003F => Some(TpmAlgId::Cmac),
        0x0040 => Some(TpmAlgId::Ctr),
        0x0041 => Some(TpmAlgId::Ofb),
        0x0042 => Some(TpmAlgId::Cbc),
        0x0043 => Some(TpmAlgId::Cfb),
        0x0044 => Some(TpmAlgId::Ecb),
        0x0050 => Some(TpmAlgId::Ccm),
        0x0051 => Some(TpmAlgId::Gcm),
        0x0052 => Some(TpmAlgId::Kw),
        0x0053 => Some(TpmAlgId::Kwp),
        0x0054 => Some(TpmAlgId::Eax),
        0x0060 => Some(TpmAlgId::Eddsa),
        0x0061 => Some(TpmAlgId::EddsaPh),
        0x0070 => Some(TpmAlgId::Lms),
        0x0071 => Some(TpmAlgId::Xmss),
        0x0080 => Some(TpmAlgId::KeyedXof),
        0x0081 => Some(TpmAlgId::KmacXof128),
        0x0082 => Some(TpmAlgId::KmacXof256),
        0x0090 => Some(TpmAlgId::Kmac128),
        0x0091 => Some(TpmAlgId::Kmac256),
        _ => None,
    }
}

/// Decoding an algorithm identifier's encoding gives it back.
pub proof fn lemma_alg_id_value_roundtrip(alg: TpmAlgId)
    ensures
        spec_tpm_alg_id_from_u16(alg.spec_value()) == Some(alg),
{
}

/// The numeric algorithm identifiers, as the TCG Algorithm Registry and
/// TPM 2.0 Part 2 assign them in `TPM_ALG_ID`: for instance `TPM_ALG_RSA`
/// is `0x0001`, `TPM_ALG_SHA256` is `0x000B` and `TPM_ALG_ECC` is `0x0023`.
pub proof fn lemma_alg_id_values()
    ensures
        TpmAlgId::Rsa.spec_value() == 0x0001,
        TpmAlgId::Tdes.spec_value() == 0x0003,
        TpmAlgId::Sha1.spec_value() == 0x0004,
        TpmAlgId::Hmac.spec_value() == 0x0005,
        TpmAlgId::Aes.spec_value() == 0x0006,
        TpmAlgId::Mgf1.spec_value() == 0x0007,
        TpmAlgId::KeyedHash.spec_value() == 0x0008,
        TpmAlgId::Xor.spec_value() == 0x000A,
        TpmAlgId::Sha256.spec_value() == 0x000B,
        TpmAlgId::Sha384.spec_value() == 0x000C,
        TpmAlgId::Sha512.spec_value() == 0x000D,
        TpmAlgId::Sha256_192.spec_value() == 0x000E,
        TpmAlgId::Null.spec_value() == 0x0010,
        TpmAlgId::Sm3_256.spec_value() == 0x0012,
        TpmAlgId::Sm4.spec_value() == 0x0013,
        TpmAlgId::Rsassa.spec_value() == 0x0014,
        TpmAlgId::Rsaes.spec_value() == 0x0015,
        TpmAlgId::Rsapss.spec_value() == 0x0016,
        TpmAlgId::Oaep.spec_value() == 0x0017,
        TpmAlgId::Ecdsa.spec_value() == 0x0018,
        TpmAlgId::Ecdh.spec_value() == 0x0019,
        TpmAlgId::Ecdaa.spec_value() == 0x001A,
        TpmAlgId::Sm2.spec_value() == 0x001B,
        TpmAlgId::Ecschnorr.spec_value() == 0x001C,
        TpmAlgId::Ecmqv.spec_value() == 0x001D,
        TpmAlgId::Kdf1Sp800_56A.spec_value() == 0x0020,
        TpmAlgId::Kdf2.spec_value() == 0x0021,
        TpmAlgId::Kdf1Sp800_108.spec_value() == 0x0022,
        TpmAlgId::Ecc.spec_value() == 0x0023,
        TpmAlgId::SymCipher.spec_value() == 0x0025,
        TpmAlgId::Camellia.spec_value() == 0x0026,
        TpmAlgId::Sha3_256.spec_value() == 0x0027,
        TpmAlgId::Sha3_384.spec_value() == 0x0028,
        TpmAlgId::Sha3_512.spec_value() == 0x0029,
        TpmAlgId::Shake128.spec_value() == 0x002A,
        TpmAlgId::Shake256.spec_value() == 0x002B,
        TpmAlgId::Shake256_192.spec_value() == 0x002C,
        TpmAlgId::Shake256_256.spec_value() == 0x002D,
        TpmAlgId::Shake256_512.spec_value() == 0x002E,
        TpmAlgId::Cmac.spec_value() == 0x003F,
        TpmAlgId::Ctr.spec_value() == 0x0040,
        TpmAlgId::Ofb.spec_value() == 0x0041,
        TpmAlgId::Cbc.spec_value() == 0x0042,
        TpmAlgId::Cfb.spec_value() == 0x0043,
        TpmAlgId::Ecb.spec_value() == 0x0044,
        TpmAlgId::Ccm.spec_value() == 0x0050,
        TpmAlgId::Gcm.spec_value() == 0x0051,
        TpmAlgId::Kw.spec_value() == 0x0052,
        TpmAlgId::Kwp.spec_value() == 0x0053,
        TpmAlgId::Eax.spec_value() == 0x0054,
        TpmAlgId::Eddsa.spec_value() == 0x0060,
        TpmAlgId::EddsaPh.spec_value() == 0x0061,
        TpmAlgId::Lms.spec_value() == 0x0070,
        TpmAlgId::Xmss.spec_value() == 0x0071,
        TpmAlgId::KeyedXof.spec_value() == 0x0080,
        TpmAlgId::KmacXof128.spec_value() == 0x0081,
        TpmAlgId::KmacXof256.spec_value() == 0x0082,
        TpmAlgId::Kmac128.spec_value() == 0x0090,
        TpmAlgId::Kmac256.spec_value() == 0x0091,
{
}

} // verus!
