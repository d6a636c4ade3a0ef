use vstd::prelude::*;

verus! {

/// A TPM 2.0 handle type (`TPM_HT`): the most significant byte of a handle.
#[derive(Debug, Clone, Copy, PartialEq, Eq, Structural)]
pub enum TpmHt {
    Pcr,
    NvIndex,
    HmacSession,
    PolicySession,
    ExternalNv,
    PermanentNv,
    Permanent,
    Transient,
    Persistent,
    Ac,
}

impl TpmHt {
    /// The numeric encoding of this value.
    pub open spec fn spec_value(self) -> u8 {
        match self {
            TpmHt::Pcr => 0x00,
            TpmHt::NvIndex => 0x01,
            TpmHt::HmacSession => 0x02,
            TpmHt::PolicySession => 0x03,
            TpmHt::ExternalNv => 0x11,
            TpmHt::PermanentNv => 0x12,
            TpmHt::Permanent => 0x40,
            TpmHt::Transient => 0x80,
            TpmHt::Persistent => 0x81,
            TpmHt::Ac => 0x90,
        }
    }

    /// Returns the numeric encoding.
    #[verifier::when_used_as_spec(spec_value)]
    pub fn value(self) -> (v: u8)
        ensures
            v == self.spec_value(),
    {
        match self {
            TpmHt::Pcr => 0x00,
            TpmHt::NvIndex => 0x01,
            TpmHt::HmacSession => 0x02,
            TpmHt::PolicySession => 0x03,
            TpmHt::ExternalNv => 0x11,
            TpmHt::PermanentNv => 0x12,
            TpmHt::Permanent => 0x40,
            TpmHt::Transient => 0x80,
            TpmHt::Persistent => 0x81,
            TpmHt::Ac => 0x90,
        }
    }

    /// Decodes a numeric value, if it encodes a variant.
    pub fn from_u8(value: u8) -> (r: Option<TpmHt>)
        ensures
            r == spec_tpm_ht_from_u8(value),
    {
        match value {
            0x00 => Some(TpmHt::Pcr),
            0x01 => Some(TpmHt::NvIndex),
            0x02 => Some(TpmHt::HmacSession),
            0x03 => Some(TpmHt::PolicySession),
            0x11 => Some(TpmHt::ExternalNv),
            0x12 => Some(TpmHt::PermanentNv),
            0x40 => Some(TpmHt::Permanent),
            0x80 => Some(TpmHt::Transient),
            0x81 => Some(TpmHt::Persistent),
            0x90 => Some(TpmHt::Ac),
            _ => None,
        }
    }
}

/// The variant of `TpmHt` encoded by `value`, if there is one.
pub open spec fn spec_tpm_ht_from_u8(value: u8) -> Option<TpmHt> {
    match value {
        0x00 => Some(TpmHt::Pcr),
        0x01 => Some(TpmHt::NvIndex),
        0x02 => Some(TpmHt::HmacSession),
        0x03 => Some(TpmHt::PolicySession),
        0x11 => Some(TpmHt::ExternalNv),
        0x12 => Some(TpmHt::PermanentNv),
        0x40 => Some(TpmHt::Permanent),
        0x80 => Some(TpmHt::Transient),
        0x81 => Some(TpmHt::Persistent),
        0x90 => Some(TpmHt::Ac),
        _ => None,
    }
}

/// Decoding a handle type's encoding gives it back.
pub proof fn lemma_ht_value_roundtrip(ht: TpmHt)
    ensures
        spec_tpm_ht_from_u8(ht.spec_value()) == Some(ht),
{
}

/// The handle types, the top byte of a handle, as TPM 2.0 Part 2 assigns
/// them in `TPM_HT`: for instance `0x02` is an HMAC session, `0x03` a policy
/// session, `0x80` a transient object and `0x81` a persistent one.
pub proof fn lemma_ht_values()
    ensures
        TpmHt::Pcr.spec_value() == 0x00,
        TpmHt::NvIndex.spec_value() == 0x01,
        TpmHt::HmacSession.spec_value() == 0x02,
        TpmHt::PolicySession.spec_value() == 0x03,
        TpmHt::ExternalNv.spec_value() == 0x11,
        TpmHt::PermanentNv.spec_value() == 0x12,
        TpmHt::Permanent.spec_value() == 0x40,
        TpmHt::Transient.spec_value() == 0x80,
        TpmHt::Persistent.spec_value() == 0x81,
        TpmHt::Ac.spec_value() == 0x90,
{
}

} // verus!
