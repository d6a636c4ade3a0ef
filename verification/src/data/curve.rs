use vstd::prelude::*;

verus! {

/// A TPM 2.0 elliptic curve identifier (`TPM_ECC_CURVE`); `NoCurve` is
/// `TPM_ECC_NONE`.
#[derive(Debug, Clone, Copy, PartialEq, Eq, Structural)]
pub enum TpmEccCurve {
    NoCurve,
    NistP192,
    NistP224,
    NistP256,
    NistP384,
    NistP521,
    BnP256,
    BnP638,
    Sm2P256,
    BpP256R1,
    BpP384R1,
    BpP512R1,
    Curve25519,
    Curve448,
}

impl TpmEccCurve {
    /// The numeric encoding of this value.
    pub open spec fn spec_value(self) -> u16 {
        match self {
            TpmEccCurve::NoCurve => 0x0000,
            TpmEccCurve::NistP192 => 0x0001,
            TpmEccCurve::NistP224 => 0x0002,
            TpmEccCurve::NistP256 => 0x0003,
            TpmEccCurve::NistP384 => 0x0004,
            TpmEccCurve::NistP521 => 0x0005,
            TpmEccCurve::BnP256 => 0x0010,
            TpmEccCurve::BnP638 => 0x0011,
            TpmEccCurve::Sm2P256 => 0x0020,
            TpmEccCurve::BpP256R1 => 0x0030,
            TpmEccCurve::BpP384R1 => 0x0031,
            TpmEccCurve::BpP512R1 => 0x0032,
            TpmEccCurve::Curve25519 => 0x0040,
            TpmEccCurve::Curve448 => 0x0041,
        }
    }

    /// Returns the numeric encoding.
    #[verifier::when_used_as_spec(spec_value)]
    pub fn value(self) -> (v: u16)
        ensures
            v == self.spec_value(),
    {
        match self {
            TpmEccCurve::NoCurve => 0x0000,
            TpmEccCurve::NistP192 => 0x0001,
            TpmEccCurve::NistP224 => 0x0002,
            TpmEccCurve::NistP256 => 0x0003,
            TpmEccCurve::NistP384 => 0x0004,
            TpmEccCurve::NistP521 => 0x0005,
            TpmEccCurve::BnP256 => 0x0010,
            TpmEccCurve::BnP638 => 0x0011,
            TpmEccCurve::Sm2P256 => 0x0020,
            TpmEccCurve::BpP256R1 => 0x0030,
            TpmEccCurve::BpP384R1 => 0x0031,
            TpmEccCurve::BpP512R1 => 0x0032,
            TpmEccCurve::Curve25519 => 0x0040,
            TpmEccCurve::Curve448 => 0x0041,
        }
    }

    /// Decodes a numeric value, if it encodes a curve.
    pub fn from_u16(value: u16) -> (r: Option<TpmEccCurve>)
        ensures
            r == spec_tpm_ecc_curve_from_u16(value),
    {
        match value {
            0x0000 => Some(TpmEccCurve::NoCurve),
            0x0001 => Some(TpmEccCurve::NistP192),
            0x0002 => Some(TpmEccCurve::NistP224),
            0x0003 => Some(TpmEccCurve::NistP256),
            0x0004 => Some(TpmEccCurve::NistP384),
            0x0005 => Some(TpmEccCurve::NistP521),
            0x0010 => Some(TpmEccCurve::BnP256),
            0x0011 => Some(TpmEccCurve::BnP638),
            0x0020 => Some(TpmEccCurve::Sm2P256),
            0x0030 => Some(TpmEccCurve::BpP256R1),
            0x0031 => Some(TpmEccCurve::BpP384R1),
            0x0032 => Some(TpmEccCurve::BpP512R1),
            0x0040 => Some(TpmEccCurve::Curve25519),
            0x0041 => Some(TpmEccCurve::Curve448),
            _ => None,
        }
    }
}

/// The curve encoded by `value`, if there is one.
pub open spec fn spec_tpm_ecc_curve_from_u16(value: u16) -> Option<TpmEccCurve> {
    match value {
        0x0000 => Some(TpmEccCurve::NoCurve),
        0x0001 => Some(TpmEccCurve::NistP192),
        0x0002 => Some(TpmEccCurve::NistP224),
        0x0003 => Some(TpmEccCurve::NistP256),
        0x0004 => Some(TpmEccCurve::NistP384),
        0x0005 => Some(TpmEccCurve::NistP521),
        0x0010 => Some(TpmEccCurve::BnP256),
        0x0011 => Some(TpmEccCurve::BnP638),
        0x0020 => Some(TpmEccCurve::Sm2P256),
        0x0030 => Some(TpmEccCurve::BpP256R1),
        0x0031 => Some(TpmEccCurve::BpP384R1),
        0x0032 => Some(TpmEccCurve::BpP512R1),
        0x0040 => Some(TpmEccCurve::Curve25519),
        0x0041 => Some(TpmEccCurve::Curve448),
        _ => None,
    }
}

/// Decoding a curve identifier's encoding gives it back.
pub proof fn lemma_ecc_curve_value_roundtrip(curve: TpmEccCurve)
    ensures
        spec_tpm_ecc_curve_from_u16(curve.spec_value()) == Some(curve),
{
}

} // verus!
