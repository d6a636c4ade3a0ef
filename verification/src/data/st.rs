use vstd::prelude::*;

verus! {

/// A TPM 2.0 structure tag (`TPM_ST`).
#[derive(Debug, Clone, Copy, PartialEq, Eq, Structural)]
pub enum TpmSt {
    RspCommand,
    Null,
    NoSessions,
    Sessions,
    AttestNv,
    AttestCommandAudit,
    AttestSessionAudit,
    AttestCertify,
    AttestQuote,
    AttestTime,
    AttestCreation,
    AttestNvDigest,
    Creation,
    Verified,
    AuthSecret,
    Hashcheck,
    AuthSigned,
    FuManifest,
}

impl TpmSt {
    /// The numeric encoding of this value.
    pub open spec fn spec_value(self) -> u16 {
        match self {
            TpmSt::RspCommand => 0x00C4,
            TpmSt::Null => 0x8000,
            TpmSt::NoSessions => 0x8001,
            TpmSt::Sessions => 0x8002,
            TpmSt::AttestNv => 0x8014,
            TpmSt::AttestCommandAudit => 0x8015,
            TpmSt::AttestSessionAudit => 0x8016,
            TpmSt::AttestCertify => 0x8017,
            TpmSt::AttestQuote => 0x8018,
            TpmSt::AttestTime => 0x8019,
            TpmSt::AttestCreation => 0x801A,
            TpmSt::AttestNvDigest => 0x801C,
            TpmSt::Creation => 0x8021,
            TpmSt::Verified => 0x8022,
            TpmSt::AuthSecret => 0x8023,
            TpmSt::Hashcheck => 0x8024,
            TpmSt::AuthSigned => 0x8025,
            TpmSt::FuManifest => 0x8029,
        }
    }

    /// Returns the numeric encoding.
    #[verifier::when_used_as_spec(spec_value)]
    pub fn value(self) -> (v: u16)
        ensures
            v == self.spec_value(),
    {
        match self {
            TpmSt::RspCommand => 0x00C4,
            TpmSt::Null => 0x8000,
            TpmSt::NoSessions => 0x8001,
            TpmSt::Sessions => 0x8002,
            TpmSt::AttestNv => 0x8014,
            TpmSt::AttestCommandAudit => 0x8015,
            TpmSt::AttestSessionAudit => 0x8016,
            TpmSt::AttestCertify => 0x8017,
            TpmSt::AttestQuote => 0x8018,
            TpmSt::AttestTime => 0x8019,
            TpmSt::AttestCreation => 0x801A,
            TpmSt::AttestNvDigest => 0x801C,
            TpmSt::Creation => 0x8021,
            TpmSt::Verified => 0x8022,
            TpmSt::AuthSecret => 0x8023,
            TpmSt::Hashcheck => 0x8024,
            TpmSt::AuthSigned => 0x8025,
            TpmSt::FuManifest => 0x8029,
        }
    }

    /// Decodes a numeric value, if it encodes a variant.
    pub fn from_u16(value: u16) -> (r: Option<TpmSt>)
        ensures
            r == spec_tpm_st_from_u16(value),
    {
        match value {
            0x00C4 => Some(TpmSt::RspCommand),
            0x8000 => Some(TpmSt::Null),
            0x8001 => Some(TpmSt::NoSessions),
            0x8002 => Some(TpmSt::Sessions),
            0x8014 => Some(TpmSt::AttestNv),
            0x8015 => Some(TpmSt::AttestCommandAudit),
            0x8016 => Some(TpmSt::AttestSessionAudit),
            0x8017 => Some(TpmSt::AttestCertify),
            0x8018 => Some(TpmSt::AttestQuote),
            0x8019 => Some(TpmSt::AttestTime),
            0x801A => Some(TpmSt::AttestCreation),
            0x801C => Some(TpmSt::AttestNvDigest),
            0x8021 => Some(TpmSt::Creation),
            0x8022 => Some(TpmSt::Verified),
            0x8023 => Some(TpmSt::AuthSecret),
            0x8024 => Some(TpmSt::Hashcheck),
            0x8025 => Some(TpmSt::AuthSigned),
            0x8029 => Some(TpmSt::FuManifest),
            _ => None,
        }
    }
}

/// The variant of `TpmSt` encoded by `value`, if there is one.
pub open spec fn spec_tpm_st_from_u16(value: u16) -> Option<TpmSt> {
    match value {
        0x00C4 => Some(TpmSt::RspCommand),
        0x8000 => Some(TpmSt::Null),
        0x8001 => Some(TpmSt::NoSessions),
        0x8002 => Some(TpmSt::Sessions),
        0x8014 => Some(TpmSt::AttestNv),
        0x8015 => Some(TpmSt::AttestCommandAudit),
        0x8016 => Some(TpmSt::AttestSessionAudit),
        0x8017 => Some(TpmSt::AttestCertify),
        0x8018 => Some(TpmSt::AttestQuote),
        0x8019 => Some(TpmSt::AttestTime),
        0x801A => Some(TpmSt::AttestCreation),
        0x801C => Some(TpmSt::AttestNvDigest),
        0x8021 => Some(TpmSt::Creation),
        0x8022 => Some(TpmSt::Verified),
        0x8023 => Some(TpmSt::AuthSecret),
        0x8024 => Some(TpmSt::Hashcheck),
        0x8025 => Some(TpmSt::AuthSigned),
        0x8029 => Some(TpmSt::FuManifest),
        _ => None,
    }
}
/// Decoding a tag's encoding gives the tag back.
pub proof fn lemma_st_value_roundtrip(st: TpmSt)
    ensures
        spec_tpm_st_from_u16(st.spec_value()) == Some(st),
{
}

/// A decoded tag has the decoded number as its encoding.
pub proof fn lemma_st_from_value(value: u16)
    ensures
        spec_tpm_st_from_u16(value) matches Some(st) ==> st.spec_value() == value,
{
}

/// The structure tags, as TPM 2.0 Part 2 assigns them in `TPM_ST`: for
/// instance a command or response without sessions is tagged `0x8001`
/// (`TPM_ST_NO_SESSIONS`) and one with sessions `0x8002`
/// (`TPM_ST_SESSIONS`).
pub proof fn lemma_st_values()
    ensures
        TpmSt::RspCommand.spec_value() == 0x00C4,
        TpmSt::Null.spec_value() == 0x8000,
        TpmSt::NoSessions.spec_value() == 0x8001,
        TpmSt::Sessions.spec_value() == 0x8002,
        TpmSt::AttestNv.spec_value() == 0x8014,
        TpmSt::AttestCommandAudit.spec_value() == 0x8015,
        TpmSt::AttestSessionAudit.spec_value() == 0x8016,
        TpmSt::AttestCertify.spec_value() == 0x8017,
        TpmSt::AttestQuote.spec_value() == 0x8018,
        TpmSt::AttestTime.spec_value() == 0x8019,
        TpmSt::AttestCreation.spec_value() == 0x801A,
        TpmSt::AttestNvDigest.spec_value() == 0x801C,
        TpmSt::Creation.spec_value() == 0x8021,
        TpmSt::Verified.spec_value() == 0x8022,
        TpmSt::AuthSecret.spec_value() == 0x8023,
        TpmSt::Hashcheck.spec_value() == 0x8024,
        TpmSt::AuthSigned.spec_value() == 0x8025,
        TpmSt::FuManifest.spec_value() == 0x8029,
{
}

} // verus!
