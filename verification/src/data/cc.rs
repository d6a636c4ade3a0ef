use vstd::prelude::*;

verus! {

/// A TPM 2.0 command code (`TPM_CC`).
#[derive(Debug, Clone, Copy, PartialEq, Eq, Structural)]
pub enum TpmCc {
    NvUndefineSpaceSpecial,
    EvictControl,
    HierarchyControl,
    NvUndefineSpace,
    ChangeEps,
    ChangePps,
    Clear,
    ClearControl,
    ClockSet,
    HierarchyChangeAuth,
    NvDefineSpace,
    PcrAllocate,
    PcrSetAuthPolicy,
    PpCommands,
    SetPrimaryPolicy,
    FieldUpgradeStart,
    ClockRateAdjust,
    CreatePrimary,
    NvGlobalWriteLock,
    GetCommandAuditDigest,
    NvIncrement,
    NvSetBits,
    NvExtend,
    NvWrite,
    NvWriteLock,
    DictionaryAttackLockReset,
    DictionaryAttackParameters,
    NvChangeAuth,
    PcrEvent,
    PcrReset,
    SequenceComplete,
    SetAlgorithmSet,
    SetCommandCodeAuditStatus,
    FieldUpgradeData,
    IncrementalSelfTest,
    SelfTest,
    Startup,
    Shutdown,
    StirRandom,
    ActivateCredential,
    Certify,
    PolicyNv,
    CertifyCreation,
    Duplicate,
    GetTime,
    GetSessionAuditDigest,
    NvRead,
    NvReadLock,
    ObjectChangeAuth,
    PolicySecret,
    Rewrap,
    Create,
    EcdhZGen,
    Hmac,
    Import,
    Load,
    Quote,
    RsaDecrypt,
    HmacStart,
    SequenceUpdate,
    Sign,
    Unseal,
    PolicySigned,
    ContextLoad,
    ContextSave,
    EcdhKeyGen,
    EncryptDecrypt,
    FlushContext,
    LoadExternal,
    MakeCredential,
    NvReadPublic,
    PolicyAuthorize,
    PolicyAuthValue,
    PolicyCommandCode,
    PolicyCounterTimer,
    PolicyCpHash,
    PolicyLocality,
    PolicyNameHash,
    PolicyOR,
    PolicyTicket,
    ReadPublic,
    RsaEncrypt,
    StartAuthSession,
    VerifySignature,
    EccParameters,
    FirmwareRead,
    GetCapability,
    GetRandom,
    GetTestResult,
    Hash,
    PcrRead,
    PolicyPcr,
    PolicyRestart,
    ReadClock,
    PcrExtend,
    PcrSetAuthValue,
    NvCertify,
    EventSequenceComplete,
    HashSequenceStart,
    PolicyPhysicalPresence,
    PolicyDuplicationSelect,
    PolicyGetDigest,
    TestParms,
    Commit,
    PolicyPassword,
    ZGen2Phase,
    EcEphemeral,
    PolicyNvWritten,
    PolicyTemplate,
    CreateLoaded,
    PolicyAuthorizeNv,
    EncryptDecrypt2,
    AcGetCapability,
    AcSend,
    PolicyAcSendSelect,
    ActSetTimeout,
    EccEncrypt,
    EccDecrypt,
    PolicyCapability,
    PolicyParameters,
    NvDefineSpace2,
    NvReadPublic2,
    ReadOnlyControl,
    PolicyTransportSpdm,
    VendorTcgTest,
}

impl TpmCc {
    /// The numeric command code of this command.
    pub open spec fn spec_value(self) -> u32 {
        match self {
            TpmCc::NvUndefineSpaceSpecial => 0x011F,
            TpmCc::EvictControl => 0x0120,
            TpmCc::HierarchyControl => 0x0121,
            TpmCc::NvUndefineSpace => 0x0122,
            TpmCc::ChangeEps => 0x0124,
            TpmCc::ChangePps => 0x0125,
            TpmCc::Clear => 0x0126,
            TpmCc::ClearControl => 0x0127,
            TpmCc::ClockSet => 0x0128,
            TpmCc::HierarchyChangeAuth => 0x0129,
            TpmCc::NvDefineSpace => 0x012A,
            TpmCc::PcrAllocate => 0x012B,
            TpmCc::PcrSetAuthPolicy => 0x012C,
            TpmCc::PpCommands => 0x012D,
            TpmCc::SetPrimaryPolicy => 0x012E,
            TpmCc::FieldUpgradeStart => 0x012F,
            TpmCc::ClockRateAdjust => 0x0130,
            TpmCc::CreatePrimary => 0x0131,
            TpmCc::NvGlobalWriteLock => 0x0132,
            TpmCc::GetCommandAuditDigest => 0x0133,
            TpmCc::NvIncrement => 0x0134,
            TpmCc::NvSetBits => 0x0135,
            TpmCc::NvExtend => 0x0136,
            TpmCc::NvWrite => 0x0137,
            TpmCc::NvWriteLock => 0x0138,
            TpmCc::DictionaryAttackLockReset => 0x0139,
            TpmCc::DictionaryAttackParameters => 0x013A,
            TpmCc::NvChangeAuth => 0x013B,
            TpmCc::PcrEvent => 0x013C,
            TpmCc::PcrReset => 0x013D,
            TpmCc::SequenceComplete => 0x013E,
            TpmCc::SetAlgorithmSet => 0x013F,
            TpmCc::SetCommandCodeAuditStatus => 0x0140,
            TpmCc::FieldUpgradeData => 0x0141,
            TpmCc::IncrementalSelfTest => 0x0142,
            TpmCc::SelfTest => 0x0143,
            TpmCc::Startup => 0x0144,
            TpmCc::Shutdown => 0x0145,
            TpmCc::StirRandom => 0x0146,
            TpmCc::ActivateCredential => 0x0147,
            TpmCc::Certify => 0x0148,
            TpmCc::PolicyNv => 0x0149,
            TpmCc::CertifyCreation => 0x014A,
            TpmCc::Duplicate => 0x014B,
            TpmCc::GetTime => 0x014C,
            TpmCc::GetSessionAuditDigest => 0x014D,
            TpmCc::NvRead => 0x014E,
            TpmCc::NvReadLock => 0x014F,
            TpmCc::ObjectChangeAuth => 0x0150,
            TpmCc::PolicySecret => 0x0151,
            TpmCc::Rewrap => 0x0152,
            TpmCc::Create => 0x0153,
            TpmCc::EcdhZGen => 0x0154,
            TpmCc::Hmac => 0x0155,
            TpmCc::Import => 0x0156,
            TpmCc::Load => 0x0157,
            TpmCc::Quote => 0x0158,
            TpmCc::RsaDecrypt => 0x0159,
            TpmCc::HmacStart => 0x015B,
            TpmCc::SequenceUpdate => 0x015C,
            TpmCc::Sign => 0x015D,
            TpmCc::Unseal => 0x015E,
            TpmCc::PolicySigned => 0x0160,
            TpmCc::ContextLoad => 0x0161,
            TpmCc::ContextSave => 0x0162,
            TpmCc::EcdhKeyGen => 0x0163,
            TpmCc::EncryptDecrypt => 0x0164,
            TpmCc::FlushContext => 0x0165,
            TpmCc::LoadExternal => 0x0167,
            TpmCc::MakeCredential => 0x0168,
            TpmCc::NvReadPublic => 0x0169,
            TpmCc::PolicyAuthorize => 0x016A,
            TpmCc::PolicyAuthValue => 0x016B,
            TpmCc::PolicyCommandCode => 0x016C,
            TpmCc::PolicyCounterTimer => 0x016D,
            TpmCc::PolicyCpHash => 0x016E,
            TpmCc::PolicyLocality => 0x016F,
            TpmCc::PolicyNameHash => 0x0170,
            TpmCc::PolicyOR => 0x0171,
            TpmCc::PolicyTicket => 0x0172,
            TpmCc::ReadPublic => 0x0173,
            TpmCc::RsaEncrypt => 0x0174,
            TpmCc::StartAuthSession => 0x0176,
            TpmCc::VerifySignature => 0x0177,
            TpmCc::EccParameters => 0x0178,
            TpmCc::FirmwareRead => 0x0179,
            TpmCc::GetCapability => 0x017A,
            TpmCc::GetRandom => 0x017B,
            TpmCc::GetTestResult => 0x017C,
            TpmCc::Hash => 0x017D,
            TpmCc::PcrRead => 0x017E,
            TpmCc::PolicyPcr => 0x017F,
            TpmCc::PolicyRestart => 0x0180,
            TpmCc::ReadClock => 0x0181,
            TpmCc::PcrExtend => 0x0182,
            TpmCc::PcrSetAuthValue => 0x0183,
            TpmCc::NvCertify => 0x0184,
            TpmCc::EventSequenceComplete => 0x0185,
            TpmCc::HashSequenceStart => 0x0186,
            TpmCc::PolicyPhysicalPresence => 0x0187,
            TpmCc::PolicyDuplicationSelect => 0x0188,
            TpmCc::PolicyGetDigest => 0x0189,
            TpmCc::TestParms => 0x018A,
            TpmCc::Commit => 0x018B,
            TpmCc::PolicyPassword => 0x018C,
            TpmCc::ZGen2Phase => 0x018D,
            TpmCc::EcEphemeral => 0x018E,
            TpmCc::PolicyNvWritten => 0x018F,
            TpmCc::PolicyTemplate => 0x0190,
            TpmCc::CreateLoaded => 0x0191,
            TpmCc::PolicyAuthorizeNv => 0x0192,
            TpmCc::EncryptDecrypt2 => 0x0193,
            TpmCc::AcGetCapability => 0x0194,
            TpmCc::AcSend => 0x0195,
            TpmCc::PolicyAcSendSelect => 0x0196,
            TpmCc::ActSetTimeout => 0x0198,
            TpmCc::EccEncrypt => 0x0199,
            TpmCc::EccDecrypt => 0x019A,
            TpmCc::PolicyCapability => 0x019B,
            TpmCc::PolicyParameters => 0x019C,
            TpmCc::NvDefineSpace2 => 0x019D,
            TpmCc::NvReadPublic2 => 0x019E,
            TpmCc::ReadOnlyControl => 0x01A0,
            TpmCc::PolicyTransportSpdm => 0x01A1,
            TpmCc::VendorTcgTest => 0x20000000,
        }
    }

    /// The number of handles in the command's handle area.
    pub open spec fn spec_command_handles(self) -> usize {
        match self {
            TpmCc::FieldUpgradeData
            | TpmCc::IncrementalSelfTest
            | TpmCc::SelfTest
            | TpmCc::Startup
            | TpmCc::Shutdown
            | TpmCc::StirRandom
            | TpmCc::ContextLoad
            | TpmCc::LoadExternal
            | TpmCc::EccParameters
            | TpmCc::FirmwareRead
            | TpmCc::GetCapability
            | TpmCc::GetRandom
            | TpmCc::GetTestResult
            | TpmCc::Hash
            | TpmCc::PcrRead
            | TpmCc::ReadClock
            | TpmCc::HashSequenceStart
            | TpmCc::TestParms
            | TpmCc::EcEphemeral
            | TpmCc::VendorTcgTest => 0,
            TpmCc::NvUndefineSpaceSpecial
            | TpmCc::EvictControl
            | TpmCc::NvUndefineSpace
            | TpmCc::FieldUpgradeStart
            | TpmCc::GetCommandAuditDigest
            | TpmCc::NvIncrement
            | TpmCc::NvSetBits
            | TpmCc::NvExtend
            | TpmCc::NvWrite
            | TpmCc::NvWriteLock
            | TpmCc::ActivateCredential
            | TpmCc::Certify
            | TpmCc::CertifyCreation
            | TpmCc::Duplicate
            | TpmCc::GetTime
            | TpmCc::NvRead
            | TpmCc::NvReadLock
            | TpmCc::ObjectChangeAuth
            | TpmCc::PolicySecret
            | TpmCc::Rewrap
            | TpmCc::PolicySigned
            | TpmCc::StartAuthSession
            | TpmCc::EventSequenceComplete => 2,
            TpmCc::PolicyNv
            | TpmCc::GetSessionAuditDigest
            | TpmCc::NvCertify
            | TpmCc::PolicyAuthorizeNv
            | TpmCc::AcSend => 3,
            _ => 1,
        }
    }

    /// The number of handles in the response's handle area.
    pub open spec fn spec_response_handles(self) -> usize {
        match self {
            TpmCc::CreatePrimary
            | TpmCc::Load
            | TpmCc::HmacStart
            | TpmCc::ContextLoad
            | TpmCc::LoadExternal
            | TpmCc::StartAuthSession
            | TpmCc::HashSequenceStart
            | TpmCc::CreateLoaded => 1,
            _ => 0,
        }
    }

    /// Returns the numeric command code.
    #[verifier::when_used_as_spec(spec_value)]
    pub fn value(self) -> (v: u32)
        ensures
            v == self.spec_value(),
    {
        match self {
            TpmCc::NvUndefineSpaceSpecial => 0x011F,
            TpmCc::EvictControl => 0x0120,
            TpmCc::HierarchyControl => 0x0121,
            TpmCc::NvUndefineSpace => 0x0122,
            TpmCc::ChangeEps => 0x0124,
            TpmCc::ChangePps => 0x0125,
            TpmCc::Clear => 0x0126,
            TpmCc::ClearControl => 0x0127,
            TpmCc::ClockSet => 0x0128,
            TpmCc::HierarchyChangeAuth => 0x0129,
            TpmCc::NvDefineSpace => 0x012A,
            TpmCc::PcrAllocate => 0x012B,
            TpmCc::PcrSetAuthPolicy => 0x012C,
            TpmCc::PpCommands => 0x012D,
            TpmCc::SetPrimaryPolicy => 0x012E,
            TpmCc::FieldUpgradeStart => 0x012F,
            TpmCc::ClockRateAdjust => 0x0130,
            TpmCc::CreatePrimary => 0x0131,
            TpmCc::NvGlobalWriteLock => 0x0132,
            TpmCc::GetCommandAuditDigest => 0x0133,
            TpmCc::NvIncrement => 0x0134,
            TpmCc::NvSetBits => 0x0135,
            TpmCc::NvExtend => 0x0136,
            TpmCc::NvWrite => 0x0137,
            TpmCc::NvWriteLock => 0x0138,
            TpmCc::DictionaryAttackLockReset => 0x0139,
            TpmCc::DictionaryAttackParameters => 0x013A,
            TpmCc::NvChangeAuth => 0x013B,
            TpmCc::PcrEvent => 0x013C,
            TpmCc::PcrReset => 0x013D,
            TpmCc::SequenceComplete => 0x013E,
            TpmCc::SetAlgorithmSet => 0x013F,
            TpmCc::SetCommandCodeAuditStatus => 0x0140,
            TpmCc::FieldUpgradeData => 0x0141,
            TpmCc::IncrementalSelfTest => 0x0142,
            TpmCc::SelfTest => 0x0143,
            TpmCc::Startup => 0x0144,
            TpmCc::Shutdown => 0x0145,
            TpmCc::StirRandom => 0x0146,
            TpmCc::ActivateCredential => 0x0147,
            TpmCc::Certify => 0x0148,
            TpmCc::PolicyNv => 0x0149,
            TpmCc::CertifyCreation => 0x014A,
            TpmCc::Duplicate => 0x014B,
            TpmCc::GetTime => 0x014C,
            TpmCc::GetSessionAuditDigest => 0x014D,
            TpmCc::NvRead => 0x014E,
            TpmCc::NvReadLock => 0x014F,
            TpmCc::ObjectChangeAuth => 0x0150,
            TpmCc::PolicySecret => 0x0151,
            TpmCc::Rewrap => 0x0152,
            TpmCc::Create => 0x0153,
            TpmCc::EcdhZGen => 0x0154,
            TpmCc::Hmac => 0x0155,
            TpmCc::Import => 0x0156,
            TpmCc::Load => 0x0157,
            TpmCc::Quote => 0x0158,
            TpmCc::RsaDecrypt => 0x0159,
            TpmCc::HmacStart => 0x015B,
            TpmCc::SequenceUpdate => 0x015C,
            TpmCc::Sign => 0x015D,
            TpmCc::Unseal => 0x015E,
            TpmCc::PolicySigned => 0x0160,
            TpmCc::ContextLoad => 0x0161,
            TpmCc::ContextSave => 0x0162,
            TpmCc::EcdhKeyGen => 0x0163,
            TpmCc::EncryptDecrypt => 0x0164,
            TpmCc::FlushContext => 0x0165,
            TpmCc::LoadExternal => 0x0167,
            TpmCc::MakeCredential => 0x0168,
            TpmCc::NvReadPublic => 0x0169,
            TpmCc::PolicyAuthorize => 0x016A,
            TpmCc::PolicyAuthValue => 0x016B,
            TpmCc::PolicyCommandCode => 0x016C,
            TpmCc::PolicyCounterTimer => 0x016D,
            TpmCc::PolicyCpHash => 0x016E,
            TpmCc::PolicyLocality => 0x016F,
            TpmCc::PolicyNameHash => 0x0170,
            TpmCc::PolicyOR => 0x0171,
            TpmCc::PolicyTicket => 0x0172,
            TpmCc::ReadPublic => 0x0173,
            TpmCc::RsaEncrypt => 0x0174,
            TpmCc::StartAuthSession => 0x0176,
            TpmCc::VerifySignature => 0x0177,
            TpmCc::EccParameters => 0x0178,
            TpmCc::FirmwareRead => 0x0179,
            TpmCc::GetCapability => 0x017A,
            TpmCc::GetRandom => 0x017B,
            TpmCc::GetTestResult => 0x017C,
            TpmCc::Hash => 0x017D,
            TpmCc::PcrRead => 0x017E,
            TpmCc::PolicyPcr => 0x017F,
            TpmCc::PolicyRestart => 0x0180,
            TpmCc::ReadClock => 0x0181,
            TpmCc::PcrExtend => 0x0182,
            TpmCc::PcrSetAuthValue => 0x0183,
            TpmCc::NvCertify => 0x0184,
            TpmCc::EventSequenceComplete => 0x0185,
            TpmCc::HashSequenceStart => 0x0186,
            TpmCc::PolicyPhysicalPresence => 0x0187,
            TpmCc::PolicyDuplicationSelect => 0x0188,
            TpmCc::PolicyGetDigest => 0x0189,
            TpmCc::TestParms => 0x018A,
            TpmCc::Commit => 0x018B,
            TpmCc::PolicyPassword => 0x018C,
            TpmCc::ZGen2Phase => 0x018D,
            TpmCc::EcEphemeral => 0x018E,
            TpmCc::PolicyNvWritten => 0x018F,
            TpmCc::PolicyTemplate => 0x0190,
            TpmCc::CreateLoaded => 0x0191,
            TpmCc::PolicyAuthorizeNv => 0x0192,
            TpmCc::EncryptDecrypt2 => 0x0193,
            TpmCc::AcGetCapability => 0x0194,
            TpmCc::AcSend => 0x0195,
            TpmCc::PolicyAcSendSelect => 0x0196,
            TpmCc::ActSetTimeout => 0x0198,
            TpmCc::EccEncrypt => 0x0199,
            TpmCc::EccDecrypt => 0x019A,
            TpmCc::PolicyCapability => 0x019B,
            TpmCc::PolicyParameters => 0x019C,
            TpmCc::NvDefineSpace2 => 0x019D,
            TpmCc::NvReadPublic2 => 0x019E,
            TpmCc::ReadOnlyControl => 0x01A0,
            TpmCc::PolicyTransportSpdm => 0x01A1,
            TpmCc::VendorTcgTest => 0x20000000,
        }
    }

    /// Returns the number of handles in the command's handle area.
    #[verifier::when_used_as_spec(spec_command_handles)]
    pub fn command_handles(self) -> (n: usize)
        ensures
            n == self.spec_command_handles(),
    {
        match self {
            TpmCc::FieldUpgradeData
            | TpmCc::IncrementalSelfTest
            | TpmCc::SelfTest
            | TpmCc::Startup
            | TpmCc::Shutdown
            | TpmCc::StirRandom
            | TpmCc::ContextLoad
            | TpmCc::LoadExternal
            | TpmCc::EccParameters
            | TpmCc::FirmwareRead
            | TpmCc::GetCapability
            | TpmCc::GetRandom
            | TpmCc::GetTestResult
            | TpmCc::Hash
            | TpmCc::PcrRead
            | TpmCc::ReadClock
            | TpmCc::HashSequenceStart
            | TpmCc::TestParms
            | TpmCc::EcEphemeral
            | TpmCc::VendorTcgTest => 0,
            TpmCc::NvUndefineSpaceSpecial
            | TpmCc::EvictControl
            | TpmCc::NvUndefineSpace
            | TpmCc::FieldUpgradeStart
            | TpmCc::GetCommandAuditDigest
            | TpmCc::NvIncrement
            | TpmCc::NvSetBits
            | TpmCc::NvExtend
            | TpmCc::NvWrite
            | TpmCc::NvWriteLock
            | TpmCc::ActivateCredential
            | TpmCc::Certify
            | TpmCc::CertifyCreation
            | TpmCc::Duplicate
            | TpmCc::GetTime
            | TpmCc::NvRead
            | TpmCc::NvReadLock
            | TpmCc::ObjectChangeAuth
            | TpmCc::PolicySecret
            | TpmCc::Rewrap
            | TpmCc::PolicySigned
            | TpmCc::StartAuthSession
            | TpmCc::EventSequenceComplete => 2,
            TpmCc::PolicyNv
            | TpmCc::GetSessionAuditDigest
            | TpmCc::NvCertify
            | TpmCc::PolicyAuthorizeNv
            | TpmCc::AcSend => 3,
            _ => 1,
        }
    }

    /// Returns the number of handles in the response's handle area.
    #[verifier::when_used_as_spec(spec_response_handles)]
    pub fn response_handles(self) -> (n: usize)
        ensures
            n == self.spec_response_handles(),
    {
        match self {
            TpmCc::CreatePrimary
            | TpmCc::Load
            | TpmCc::HmacStart
            | TpmCc::ContextLoad
            | TpmCc::LoadExternal
            | TpmCc::StartAuthSession
            | TpmCc::HashSequenceStart
            | TpmCc::CreateLoaded => 1,
            _ => 0,
        }
    }

    /// Decodes a numeric command code.
    pub fn from_u32(value: u32) -> (r: Option<TpmCc>)
        ensures
            r == spec_cc_from_u32(value),
    {
        match value {
            0x011F => Some(TpmCc::NvUndefineSpaceSpecial),
            0x0120 => Some(TpmCc::EvictControl),
            0x0121 => Some(TpmCc::HierarchyControl),
            0x0122 => Some(TpmCc::NvUndefineSpace),
            0x0124 => Some(TpmCc::ChangeEps),
            0x0125 => Some(TpmCc::ChangePps),
            0x0126 => Some(TpmCc::Clear),
            0x0127 => Some(TpmCc::ClearControl),
            0x0128 => Some(TpmCc::ClockSet),
            0x0129 => Some(TpmCc::HierarchyChangeAuth),
            0x012A => Some(TpmCc::NvDefineSpace),
            0x012B => Some(TpmCc::PcrAllocate),
            0x012C => Some(TpmCc::PcrSetAuthPolicy),
            0x012D => Some(TpmCc::PpCommands),
            0x012E => Some(TpmCc::SetPrimaryPolicy),
            0x012F => Some(TpmCc::FieldUpgradeStart),
            0x0130 => Some(TpmCc::ClockRateAdjust),
            0x0131 => Some(TpmCc::CreatePrimary),
            0x0132 => Some(TpmCc::NvGlobalWriteLock),
            0x0133 => Some(TpmCc::GetCommandAuditDigest),
            0x0134 => Some(TpmCc::NvIncrement),
            0x0135 => Some(TpmCc::NvSetBits),
            0x0136 => Some(TpmCc::NvExtend),
            0x0137 => Some(TpmCc::NvWrite),
            0x0138 => Some(TpmCc::NvWriteLock),
            0x0139 => Some(TpmCc::DictionaryAttackLockReset),
            0x013A => Some(TpmCc::DictionaryAttackParameters),
            0x013B => Some(TpmCc::NvChangeAuth),
            0x013C => Some(TpmCc::PcrEvent),
            0x013D => Some(TpmCc::PcrReset),
            0x013E => Some(TpmCc::SequenceComplete),
            0x013F => Some(TpmCc::SetAlgorithmSet),
            0x0140 => Some(TpmCc::SetCommandCodeAuditStatus),
            0x0141 => Some(TpmCc::FieldUpgradeData),
            0x0142 => Some(TpmCc::IncrementalSelfTest),
            0x0143 => Some(TpmCc::SelfTest),
            0x0144 => Some(TpmCc::Startup),
            0x0145 => Some(TpmCc::Shutdown),
            0x0146 => Some(TpmCc::StirRandom),
            0x0147 => Some(TpmCc::ActivateCredential),
            0x0148 => Some(TpmCc::Certify),
            0x0149 => Some(TpmCc::PolicyNv),
            0x014A => Some(TpmCc::CertifyCreation),
            0x014B => Some(TpmCc::Duplicate),
            0x014C => Some(TpmCc::GetTime),
            0x014D => Some(TpmCc::GetSessionAuditDigest),
            0x014E => Some(TpmCc::NvRead),
            0x014F => Some(TpmCc::NvReadLock),
            0x0150 => Some(TpmCc::ObjectChangeAuth),
            0x0151 => Some(TpmCc::PolicySecret),
            0x0152 => Some(TpmCc::Rewrap),
            0x0153 => Some(TpmCc::Create),
            0x0154 => Some(TpmCc::EcdhZGen),
            0x0155 => Some(TpmCc::Hmac),
            0x0156 => Some(TpmCc::Import),
            0x0157 => Some(TpmCc::Load),
            0x0158 => Some(TpmCc::Quote),
            0x0159 => Some(TpmCc::RsaDecrypt),
            0x015B => Some(TpmCc::HmacStart),
            0x015C => Some(TpmCc::SequenceUpdate),
            0x015D => Some(TpmCc::Sign),
            0x015E => Some(TpmCc::Unseal),
            0x0160 => Some(TpmCc::PolicySigned),
            0x0161 => Some(TpmCc::ContextLoad),
            0x0162 => Some(TpmCc::ContextSave),
            0x0163 => Some(TpmCc::EcdhKeyGen),
            0x0164 => Some(TpmCc::EncryptDecrypt),
            0x0165 => Some(TpmCc::FlushContext),
            0x0167 => Some(TpmCc::LoadExternal),
            0x0168 => Some(TpmCc::MakeCredential),
            0x0169 => Some(TpmCc::NvReadPublic),
            0x016A => Some(TpmCc::PolicyAuthorize),
            0x016B => Some(TpmCc::PolicyAuthValue),
            0x016C => Some(TpmCc::PolicyCommandCode),
            0x016D => Some(TpmCc::PolicyCounterTimer),
            0x016E => Some(TpmCc::PolicyCpHash),
            0x016F => Some(TpmCc::PolicyLocality),
            0x0170 => Some(TpmCc::PolicyNameHash),
            0x0171 => Some(TpmCc::PolicyOR),
            0x0172 => Some(TpmCc::PolicyTicket),
            0x0173 => Some(TpmCc::ReadPublic),
            0x0174 => Some(TpmCc::RsaEncrypt),
            0x0176 => Some(TpmCc::StartAuthSession),
            0x0177 => Some(TpmCc::VerifySignature),
            0x0178 => Some(TpmCc::EccParameters),
            0x0179 => Some(TpmCc::FirmwareRead),
            0x017A => Some(TpmCc::GetCapability),
            0x017B => Some(TpmCc::GetRandom),
            0x017C => Some(TpmCc::GetTestResult),
            0x017D => Some(TpmCc::Hash),
            0x017E => Some(TpmCc::PcrRead),
            0x017F => Some(TpmCc::PolicyPcr),
            0x0180 => Some(TpmCc::PolicyRestart),
            0x0181 => Some(TpmCc::ReadClock),
            0x0182 => Some(TpmCc::PcrExtend),
            0x0183 => Some(TpmCc::PcrSetAuthValue),
            0x0184 => Some(TpmCc::NvCertify),
            0x0185 => Some(TpmCc::EventSequenceComplete),
            0x0186 => Some(TpmCc::HashSequenceStart),
            0x0187 => Some(TpmCc::PolicyPhysicalPresence),
            0x0188 => Some(TpmCc::PolicyDuplicationSelect),
            0x0189 => Some(TpmCc::PolicyGetDigest),
            0x018A => Some(TpmCc::TestParms),
            0x018B => Some(TpmCc::Commit),
            0x018C => Some(TpmCc::PolicyPassword),
            0x018D => Some(TpmCc::ZGen2Phase),
            0x018E => Some(TpmCc::EcEphemeral),
            0x018F => Some(TpmCc::PolicyNvWritten),
            0x0190 => Some(TpmCc::PolicyTemplate),
            0x0191 => Some(TpmCc::CreateLoaded),
            0x0192 => Some(TpmCc::PolicyAuthorizeNv),
            0x0193 => Some(TpmCc::EncryptDecrypt2),
            0x0194 => Some(TpmCc::AcGetCapability),
            0x0195 => Some(TpmCc::AcSend),
            0x0196 => Some(TpmCc::PolicyAcSendSelect),
            0x0198 => Some(TpmCc::ActSetTimeout),
            0x0199 => Some(TpmCc::EccEncrypt),
            0x019A => Some(TpmCc::EccDecrypt),
            0x019B => Some(TpmCc::PolicyCapability),
            0x019C => Some(TpmCc::PolicyParameters),
            0x019D => Some(TpmCc::NvDefineSpace2),
            0x019E => Some(TpmCc::NvReadPublic2),
            0x01A0 => Some(TpmCc::ReadOnlyControl),
            0x01A1 => Some(TpmCc::PolicyTransportSpdm),
            0x20000000 => Some(TpmCc::VendorTcgTest),
            _ => None,
        }
    }
}

/// The command whose numeric code is `value`, if there is one.
pub open spec fn spec_cc_from_u32(value: u32) -> Option<TpmCc> {
    match value {
        0x011F => Some(TpmCc::NvUndefineSpaceSpecial),
        0x0120 => Some(TpmCc::EvictControl),
        0x0121 => Some(TpmCc::HierarchyControl),
        0x0122 => Some(TpmCc::NvUndefineSpace),
        0x0124 => Some(TpmCc::ChangeEps),
        0x0125 => Some(TpmCc::ChangePps),
        0x0126 => Some(TpmCc::Clear),
        0x0127 => Some(TpmCc::ClearControl),
        0x0128 => Some(TpmCc::ClockSet),
        0x0129 => Some(TpmCc::HierarchyChangeAuth),
        0x012A => Some(TpmCc::NvDefineSpace),
        0x012B => Some(TpmCc::PcrAllocate),
        0x012C => Some(TpmCc::PcrSetAuthPolicy),
        0x012D => Some(TpmCc::PpCommands),
        0x012E => Some(TpmCc::SetPrimaryPolicy),
        0x012F => Some(TpmCc::FieldUpgradeStart),
        0x0130 => Some(TpmCc::ClockRateAdjust),
        0x0131 => Some(TpmCc::CreatePrimary),
        0x0132 => Some(TpmCc::NvGlobalWriteLock),
        0x0133 => Some(TpmCc::GetCommandAuditDigest),
        0x0134 => Some(TpmCc::NvIncrement),
        0x0135 => Some(TpmCc::NvSetBits),
        0x0136 => Some(TpmCc::NvExtend),
        0x0137 => Some(TpmCc::NvWrite),
        0x0138 => Some(TpmCc::NvWriteLock),
        0x0139 => Some(TpmCc::DictionaryAttackLockReset),
        0x013A => Some(TpmCc::DictionaryAttackParameters),
        0x013B => Some(TpmCc::NvChangeAuth),
        0x013C => Some(TpmCc::PcrEvent),
        0x013D => Some(TpmCc::PcrReset),
        0x013E => Some(TpmCc::SequenceComplete),
        0x013F => Some(TpmCc::SetAlgorithmSet),
        0x0140 => Some(TpmCc::SetCommandCodeAuditStatus),
        0x0141 => Some(TpmCc::FieldUpgradeData),
        0x0142 => Some(TpmCc::IncrementalSelfTest),
        0x0143 => Some(TpmCc::SelfTest),
        0x0144 => Some(TpmCc::Startup),
        0x0145 => Some(TpmCc::Shutdown),
        0x0146 => Some(TpmCc::StirRandom),
        0x0147 => Some(TpmCc::ActivateCredential),
        0x0148 => Some(TpmCc::Certify),
        0x0149 => Some(TpmCc::PolicyNv),
        0x014A => Some(TpmCc::CertifyCreation),
        0x014B => Some(TpmCc::Duplicate),
        0x014C => Some(TpmCc::GetTime),
        0x014D => Some(TpmCc::GetSessionAuditDigest),
        0x014E => Some(TpmCc::NvRead),
        0x014F => Some(TpmCc::NvReadLock),
        0x0150 => Some(TpmCc::ObjectChangeAuth),
        0x0151 => Some(TpmCc::PolicySecret),
        0x0152 => Some(TpmCc::Rewrap),
        0x0153 => Some(TpmCc::Create),
        0x0154 => Some(TpmCc::EcdhZGen),
        0x0155 => Some(TpmCc::Hmac),
        0x0156 => Some(TpmCc::Import),
        0x0157 => Some(TpmCc::Load),
        0x0158 => Some(TpmCc::Quote),
        0x0159 => Some(TpmCc::RsaDecrypt),
        0x015B => Some(TpmCc::HmacStart),
        0x015C => Some(TpmCc::SequenceUpdate),
        0x015D => Some(TpmCc::Sign),
        0x015E => Some(TpmCc::Unseal),
        0x0160 => Some(TpmCc::PolicySigned),
        0x0161 => Some(TpmCc::ContextLoad),
        0x0162 => Some(TpmCc::ContextSave),
        0x0163 => Some(TpmCc::EcdhKeyGen),
        0x0164 => Some(TpmCc::EncryptDecrypt),
        0x0165 => Some(TpmCc::FlushContext),
        0x0167 => Some(TpmCc::LoadExternal),
        0x0168 => Some(TpmCc::MakeCredential),
        0x0169 => Some(TpmCc::NvReadPublic),
        0x016A => Some(TpmCc::PolicyAuthorize),
        0x016B => Some(TpmCc::PolicyAuthValue),
        0x016C => Some(TpmCc::PolicyCommandCode),
        0x016D => Some(TpmCc::PolicyCounterTimer),
        0x016E => Some(TpmCc::PolicyCpHash),
        0x016F => Some(TpmCc::PolicyLocality),
        0x0170 => Some(TpmCc::PolicyNameHash),
        0x0171 => Some(TpmCc::PolicyOR),
        0x0172 => Some(TpmCc::PolicyTicket),
        0x0173 => Some(TpmCc::ReadPublic),
        0x0174 => Some(TpmCc::RsaEncrypt),
        0x0176 => Some(TpmCc::StartAuthSession),
        0x0177 => Some(TpmCc::VerifySignature),
        0x0178 => Some(TpmCc::EccParameters),
        0x0179 => Some(TpmCc::FirmwareRead),
        0x017A => Some(TpmCc::GetCapability),
        0x017B => Some(TpmCc::GetRandom),
        0x017C => Some(TpmCc::GetTestResult),
        0x017D => Some(TpmCc::Hash),
        0x017E => Some(TpmCc::PcrRead),
        0x017F => Some(TpmCc::PolicyPcr),
        0x0180 => Some(TpmCc::PolicyRestart),
        0x0181 => Some(TpmCc::ReadClock),
        0x0182 => Some(TpmCc::PcrExtend),
        0x0183 => Some(TpmCc::PcrSetAuthValue),
        0x0184 => Some(TpmCc::NvCertify),
        0x0185 => Some(TpmCc::EventSequenceComplete),
        0x0186 => Some(TpmCc::HashSequenceStart),
        0x0187 => Some(TpmCc::PolicyPhysicalPresence),
        0x0188 => Some(TpmCc::PolicyDuplicationSelect),
        0x0189 => Some(TpmCc::PolicyGetDigest),
        0x018A => Some(TpmCc::TestParms),
        0x018B => Some(TpmCc::Commit),
        0x018C => Some(TpmCc::PolicyPassword),
        0x018D => Some(TpmCc::ZGen2Phase),
        0x018E => Some(TpmCc::EcEphemeral),
        0x018F => Some(TpmCc::PolicyNvWritten),
        0x0190 => Some(TpmCc::PolicyTemplate),
        0x0191 => Some(TpmCc::CreateLoaded),
        0x0192 => Some(TpmCc::PolicyAuthorizeNv),
        0x0193 => Some(TpmCc::EncryptDecrypt2),
        0x0194 => Some(TpmCc::AcGetCapability),
        0x0195 => Some(TpmCc::AcSend),
        0x0196 => Some(TpmCc::PolicyAcSendSelect),
        0x0198 => Some(TpmCc::ActSetTimeout),
        0x0199 => Some(TpmCc::EccEncrypt),
        0x019A => Some(TpmCc::EccDecrypt),
        0x019B => Some(TpmCc::PolicyCapability),
        0x019C => Some(TpmCc::PolicyParameters),
        0x019D => Some(TpmCc::NvDefineSpace2),
        0x019E => Some(TpmCc::NvReadPublic2),
        0x01A0 => Some(TpmCc::ReadOnlyControl),
        0x01A1 => Some(TpmCc::PolicyTransportSpdm),
        0x20000000 => Some(TpmCc::VendorTcgTest),
        _ => None,
    }
}

/// Decoding a command's numeric code gives the command back.
pub proof fn lemma_cc_value_roundtrip(cc: TpmCc)
    ensures
        spec_cc_from_u32(cc.spec_value()) == Some(cc),
{
}

/// A decoded command code has the decoded number as its value.
pub proof fn lemma_cc_from_u32_value(value: u32)
    ensures
        spec_cc_from_u32(value) matches Some(cc) ==> cc.spec_value() == value,
{
}

/// The numeric command codes, as TPM 2.0 Part 2 assigns them in `TPM_CC`:
/// for instance `TPM2_EvictControl` is `0x00000120`, `TPM2_Load` is
/// `0x00000157` and `TPM2_StartAuthSession` is `0x00000176`.
pub proof fn lemma_command_code_values()
    ensures
        TpmCc::NvUndefineSpaceSpecial.spec_value() == 0x011F,
        TpmCc::EvictControl.spec_value() == 0x0120,
        TpmCc::HierarchyControl.spec_value() == 0x0121,
        TpmCc::NvUndefineSpace.spec_value() == 0x0122,
        TpmCc::ChangeEps.spec_value() == 0x0124,
        TpmCc::ChangePps.spec_value() == 0x0125,
        TpmCc::Clear.spec_value() == 0x0126,
        TpmCc::ClearControl.spec_value() == 0x0127,
        TpmCc::ClockSet.spec_value() == 0x0128,
        TpmCc::HierarchyChangeAuth.spec_value() == 0x0129,
        TpmCc::NvDefineSpace.spec_value() == 0x012A,
        TpmCc::PcrAllocate.spec_value() == 0x012B,
        TpmCc::PcrSetAuthPolicy.spec_value() == 0x012C,
        TpmCc::PpCommands.spec_value() == 0x012D,
        TpmCc::SetPrimaryPolicy.spec_value() == 0x012E,
        TpmCc::FieldUpgradeStart.spec_value() == 0x012F,
        TpmCc::ClockRateAdjust.spec_value() == 0x0130,
        TpmCc::CreatePrimary.spec_value() == 0x0131,
        TpmCc::NvGlobalWriteLock.spec_value() == 0x0132,
        TpmCc::GetCommandAuditDigest.spec_value() == 0x0133,
        TpmCc::NvIncrement.spec_value() == 0x0134,
        TpmCc::NvSetBits.spec_value() == 0x0135,
        TpmCc::NvExtend.spec_value() == 0x0136,
        TpmCc::NvWrite.spec_value() == 0x0137,
        TpmCc::NvWriteLock.spec_value() == 0x0138,
        TpmCc::DictionaryAttackLockReset.spec_value() == 0x0139,
        TpmCc::DictionaryAttackParameters.spec_value() == 0x013A,
        TpmCc::NvChangeAuth.spec_value() == 0x013B,
        TpmCc::PcrEvent.spec_value() == 0x013C,
        TpmCc::PcrReset.spec_value() == 0x013D,
        TpmCc::SequenceComplete.spec_value() == 0x013E,
        TpmCc::SetAlgorithmSet.spec_value() == 0x013F,
        TpmCc::SetCommandCodeAuditStatus.spec_value() == 0x0140,
        TpmCc::FieldUpgradeData.spec_value() == 0x0141,
        TpmCc::IncrementalSelfTest.spec_value() == 0x0142,
        TpmCc::SelfTest.spec_value() == 0x0143,
        TpmCc::Startup.spec_value() == 0x0144,
        TpmCc::Shutdown.spec_value() == 0x0145,
        TpmCc::StirRandom.spec_value() == 0x0146,
        TpmCc::ActivateCredential.spec_value() == 0x0147,
        TpmCc::Certify.spec_value() == 0x0148,
        TpmCc::PolicyNv.spec_value() == 0x0149,
        TpmCc::CertifyCreation.spec_value() == 0x014A,
        TpmCc::Duplicate.spec_value() == 0x014B,
        TpmCc::GetTime.spec_value() == 0x014C,
        TpmCc::GetSessionAuditDigest.spec_value() == 0x014D,
        TpmCc::NvRead.spec_value() == 0x014E,
        TpmCc::NvReadLock.spec_value() == 0x014F,
        TpmCc::ObjectChangeAuth.spec_value() == 0x0150,
        TpmCc::PolicySecret.spec_value() == 0x0151,
        TpmCc::Rewrap.spec_value() == 0x0152,
        TpmCc::Create.spec_value() == 0x0153,
        TpmCc::EcdhZGen.spec_value() == 0x0154,
        TpmCc::Hmac.spec_value() == 0x0155,
        TpmCc::Import.spec_value() == 0x0156,
        TpmCc::Load.spec_value() == 0x0157,
        TpmCc::Quote.spec_value() == 0x0158,
        TpmCc::RsaDecrypt.spec_value() == 0x0159,
        TpmCc::HmacStart.spec_value() == 0x015B,
        TpmCc::SequenceUpdate.spec_value() == 0x015C,
        TpmCc::Sign.spec_value() == 0x015D,
        TpmCc::Unseal.spec_value() == 0x015E,
        TpmCc::PolicySigned.spec_value() == 0x0160,
        TpmCc::ContextLoad.spec_value() == 0x0161,
        TpmCc::ContextSave.spec_value() == 0x0162,
        TpmCc::EcdhKeyGen.spec_value() == 0x0163,
        TpmCc::EncryptDecrypt.spec_value() == 0x0164,
        TpmCc::FlushContext.spec_value() == 0x0165,
        TpmCc::LoadExternal.spec_value() == 0x0167,
        TpmCc::MakeCredential.spec_value() == 0x0168,
        TpmCc::NvReadPublic.spec_value() == 0x0169,
        TpmCc::PolicyAuthorize.spec_value() == 0x016A,
        TpmCc::PolicyAuthValue.spec_value() == 0x016B,
        TpmCc::PolicyCommandCode.spec_value() == 0x016C,
        TpmCc::PolicyCounterTimer.spec_value() == 0x016D,
        TpmCc::PolicyCpHash.spec_value() == 0x016E,
        TpmCc::PolicyLocality.spec_value() == 0x016F,
        TpmCc::PolicyNameHash.spec_value() == 0x0170,
        TpmCc::PolicyOR.spec_value() == 0x0171,
        TpmCc::PolicyTicket.spec_value() == 0x0172,
        TpmCc::ReadPublic.spec_value() == 0x0173,
        TpmCc::RsaEncrypt.spec_value() == 0x0174,
        TpmCc::StartAuthSession.spec_value() == 0x0176,
        TpmCc::VerifySignature.spec_value() == 0x0177,
        TpmCc::EccParameters.spec_value() == 0x0178,
        TpmCc::FirmwareRead.spec_value() == 0x0179,
        TpmCc::GetCapability.spec_value() == 0x017A,
        TpmCc::GetRandom.spec_value() == 0x017B,
        TpmCc::GetTestResult.spec_value() == 0x017C,
        TpmCc::Hash.spec_value() == 0x017D,
        TpmCc::PcrRead.spec_value() == 0x017E,
        TpmCc::PolicyPcr.spec_value() == 0x017F,
        TpmCc::PolicyRestart.spec_value() == 0x0180,
        TpmCc::ReadClock.spec_value() == 0x0181,
        TpmCc::PcrExtend.spec_value() == 0x0182,
        TpmCc::PcrSetAuthValue.spec_value() == 0x0183,
        TpmCc::NvCertify.spec_value() == 0x0184,
        TpmCc::EventSequenceComplete.spec_value() == 0x0185,
        TpmCc::HashSequenceStart.spec_value() == 0x0186,
        TpmCc::PolicyPhysicalPresence.spec_value() == 0x0187,
        TpmCc::PolicyDuplicationSelect.spec_value() == 0x0188,
        TpmCc::PolicyGetDigest.spec_value() == 0x0189,
        TpmCc::TestParms.spec_value() == 0x018A,
        TpmCc::Commit.spec_value() == 0x018B,
        TpmCc::PolicyPassword.spec_value() == 0x018C,
        TpmCc::ZGen2Phase.spec_value() == 0x018D,
        TpmCc::EcEphemeral.spec_value() == 0x018E,
        TpmCc::PolicyNvWritten.spec_value() == 0x018F,
        TpmCc::PolicyTemplate.spec_value() == 0x0190,
        TpmCc::CreateLoaded.spec_value() == 0x0191,
        TpmCc::PolicyAuthorizeNv.spec_value() == 0x0192,
        TpmCc::EncryptDecrypt2.spec_value() == 0x0193,
        TpmCc::AcGetCapability.spec_value() == 0x0194,
        TpmCc::AcSend.spec_value() == 0x0195,
        TpmCc::PolicyAcSendSelect.spec_value() == 0x0196,
        TpmCc::ActSetTimeout.spec_value() == 0x0198,
        TpmCc::EccEncrypt.spec_value() == 0x0199,
        TpmCc::EccDecrypt.spec_value() == 0x019A,
        TpmCc::PolicyCapability.spec_value() == 0x019B,
        TpmCc::PolicyParameters.spec_value() == 0x019C,
        TpmCc::NvDefineSpace2.spec_value() == 0x019D,
        TpmCc::NvReadPublic2.spec_value() == 0x019E,
        TpmCc::ReadOnlyControl.spec_value() == 0x01A0,
        TpmCc::PolicyTransportSpdm.spec_value() == 0x01A1,
        TpmCc::VendorTcgTest.spec_value() == 0x20000000,
{
}

/// The handle areas of all commands and responses, as the command and
/// response structures of TPM 2.0 Part 3 list their handles: for instance
/// `TPM2_EvictControl` takes two handles (`auth`, `objectHandle`) and
/// `TPM2_Load` returns one (`objectHandle`); exactly `CreatePrimary`,
/// `Load`, `HmacStart`, `ContextLoad`, `LoadExternal`, `StartAuthSession`,
/// `HashSequenceStart` and `CreateLoaded` return a handle.
pub proof fn lemma_handle_area_sizes()
    ensures
        TpmCc::NvUndefineSpaceSpecial.spec_command_handles() == 2,
        TpmCc::EvictControl.spec_command_handles() == 2,
        TpmCc::HierarchyControl.spec_command_handles() == 1,
        TpmCc::NvUndefineSpace.spec_command_handles() == 2,
        TpmCc::ChangeEps.spec_command_handles() == 1,
        TpmCc::ChangePps.spec_command_handles() == 1,
        TpmCc::Clear.spec_command_handles() == 1,
        TpmCc::ClearControl.spec_command_handles() == 1,
        TpmCc::ClockSet.spec_command_handles() == 1,
        TpmCc::HierarchyChangeAuth.spec_command_handles() == 1,
        TpmCc::NvDefineSpace.spec_command_handles() == 1,
        TpmCc::PcrAllocate.spec_command_handles() == 1,
        TpmCc::PcrSetAuthPolicy.spec_command_handles() == 1,
        TpmCc::PpCommands.spec_command_handles() == 1,
        TpmCc::SetPrimaryPolicy.spec_command_handles() == 1,
        TpmCc::FieldUpgradeStart.spec_command_handles() == 2,
        TpmCc::ClockRateAdjust.spec_command_handles() == 1,
        TpmCc::CreatePrimary.spec_command_handles() == 1,
        TpmCc::NvGlobalWriteLock.spec_command_handles() == 1,
        TpmCc::GetCommandAuditDigest.spec_command_handles() == 2,
        TpmCc::NvIncrement.spec_command_handles() == 2,
        TpmCc::NvSetBits.spec_command_handles() == 2,
        TpmCc::NvExtend.spec_command_handles() == 2,
        TpmCc::NvWrite.spec_command_handles() == 2,
        TpmCc::NvWriteLock.spec_command_handles() == 2,
        TpmCc::DictionaryAttackLockReset.spec_command_handles() == 1,
        TpmCc::DictionaryAttackParameters.spec_command_handles() == 1,
        TpmCc::NvChangeAuth.spec_command_handles() == 1,
        TpmCc::PcrEvent.spec_command_handles() == 1,
        TpmCc::PcrReset.spec_command_handles() == 1,
        TpmCc::SequenceComplete.spec_command_handles() == 1,
        TpmCc::SetAlgorithmSet.spec_command_handles() == 1,
        TpmCc::SetCommandCodeAuditStatus.spec_command_handles() == 1,
        TpmCc::FieldUpgradeData.spec_command_handles() == 0,
        TpmCc::IncrementalSelfTest.spec_command_handles() == 0,
        TpmCc::SelfTest.spec_command_handles() == 0,
        TpmCc::Startup.spec_command_handles() == 0,
        TpmCc::Shutdown.spec_command_handles() == 0,
        TpmCc::StirRandom.spec_command_handles() == 0,
        TpmCc::ActivateCredential.spec_command_handles() == 2,
        TpmCc::Certify.spec_command_handles() == 2,
        TpmCc::PolicyNv.spec_command_handles() == 3,
        TpmCc::CertifyCreation.spec_command_handles() == 2,
        TpmCc::Duplicate.spec_command_handles() == 2,
        TpmCc::GetTime.spec_command_handles() == 2,
        TpmCc::GetSessionAuditDigest.spec_command_handles() == 3,
        TpmCc::NvRead.spec_command_handles() == 2,
        TpmCc::NvReadLock.spec_command_handles() == 2,
        TpmCc::ObjectChangeAuth.spec_command_handles() == 2,
        TpmCc::PolicySecret.spec_command_handles() == 2,
        TpmCc::Rewrap.spec_command_handles() == 2,
        TpmCc::Create.spec_command_handles() == 1,
        TpmCc::EcdhZGen.spec_command_handles() == 1,
        TpmCc::Hmac.spec_command_handles() == 1,
        TpmCc::Import.spec_command_handles() == 1,
        TpmCc::Load.spec_command_handles() == 1,
        TpmCc::Quote.spec_command_handles() == 1,
        TpmCc::RsaDecrypt.spec_command_handles() == 1,
        TpmCc::HmacStart.spec_command_handles() == 1,
        TpmCc::SequenceUpdate.spec_command_handles() == 1,
        TpmCc::Sign.spec_command_handles() == 1,
        TpmCc::Unseal.spec_command_handles() == 1,
        TpmCc::PolicySigned.spec_command_handles() == 2,
        TpmCc::ContextLoad.spec_command_handles() == 0,
        TpmCc::ContextSave.spec_command_handles() == 1,
        TpmCc::EcdhKeyGen.spec_command_handles() == 1,
        TpmCc::EncryptDecrypt.spec_command_handles() == 1,
        TpmCc::FlushContext.spec_command_handles() == 1,
        TpmCc::LoadExternal.spec_command_handles() == 0,
        TpmCc::MakeCredential.spec_command_handles() == 1,
        TpmCc::NvReadPublic.spec_command_handles() == 1,
        TpmCc::PolicyAuthorize.spec_command_handles() == 1,
        TpmCc::PolicyAuthValue.spec_command_handles() == 1,
        TpmCc::PolicyCommandCode.spec_command_handles() == 1,
        TpmCc::PolicyCounterTimer.spec_command_handles() == 1,
        TpmCc::PolicyCpHash.spec_command_handles() == 1,
        TpmCc::PolicyLocality.spec_command_handles() == 1,
        TpmCc::PolicyNameHash.spec_command_handles() == 1,
        TpmCc::PolicyOR.spec_command_handles() == 1,
        TpmCc::PolicyTicket.spec_command_handles() == 1,
        TpmCc::ReadPublic.spec_command_handles() == 1,
        TpmCc::RsaEncrypt.spec_command_handles() == 1,
        TpmCc::StartAuthSession.spec_command_handles() == 2,
        TpmCc::VerifySignature.spec_command_handles() == 1,
        TpmCc::EccParameters.spec_command_handles() == 0,
        TpmCc::FirmwareRead.spec_command_handles() == 0,
        TpmCc::GetCapability.spec_command_handles() == 0,
        TpmCc::GetRandom.spec_command_handles() == 0,
        TpmCc::GetTestResult.spec_command_handles() == 0,
        TpmCc::Hash.spec_command_handles() == 0,
        TpmCc::PcrRead.spec_command_handles() == 0,
        TpmCc::PolicyPcr.spec_command_handles() == 1,
        TpmCc::PolicyRestart.spec_command_handles() == 1,
        TpmCc::ReadClock.spec_command_handles() == 0,
        TpmCc::PcrExtend.spec_command_handles() == 1,
        TpmCc::PcrSetAuthValue.spec_command_handles() == 1,
        TpmCc::NvCertify.spec_command_handles() == 3,
        TpmCc::EventSequenceComplete.spec_command_handles() == 2,
        TpmCc::HashSequenceStart.spec_command_handles() == 0,
        TpmCc::PolicyPhysicalPresence.spec_command_handles() == 1,
        TpmCc::PolicyDuplicationSelect.spec_command_handles() == 1,
        TpmCc::PolicyGetDigest.spec_command_handles() == 1,
        TpmCc::TestParms.spec_command_handles() == 0,
        TpmCc::Commit.spec_command_handles() == 1,
        TpmCc::PolicyPassword.spec_command_handles() == 1,
        TpmCc::ZGen2Phase.spec_command_handles() == 1,
        TpmCc::EcEphemeral.spec_command_handles() == 0,
        TpmCc::PolicyNvWritten.spec_command_handles() == 1,
        TpmCc::PolicyTemplate.spec_command_handles() == 1,
        TpmCc::CreateLoaded.spec_command_handles() == 1,
        TpmCc::PolicyAuthorizeNv.spec_command_handles() == 3,
        TpmCc::EncryptDecrypt2.spec_command_handles() == 1,
        TpmCc::AcGetCapability.spec_command_handles() == 1,
        TpmCc::AcSend.spec_command_handles() == 3,
        TpmCc::PolicyAcSendSelect.spec_command_handles() == 1,
        TpmCc::ActSetTimeout.spec_command_handles() == 1,
        TpmCc::EccEncrypt.spec_command_handles() == 1,
        TpmCc::EccDecrypt.spec_command_handles() == 1,
        TpmCc::PolicyCapability.spec_command_handles() == 1,
        TpmCc::PolicyParameters.spec_command_handles() == 1,
        TpmCc::NvDefineSpace2.spec_command_handles() == 1,
        TpmCc::NvReadPublic2.spec_command_handles() == 1,
        TpmCc::ReadOnlyControl.spec_command_handles() == 1,
        TpmCc::PolicyTransportSpdm.spec_command_handles() == 1,
        TpmCc::VendorTcgTest.spec_command_handles() == 0,
        TpmCc::NvUndefineSpaceSpecial.spec_response_handles() == 0,
        TpmCc::EvictControl.spec_response_handles() == 0,
        TpmCc::HierarchyControl.spec_response_handles() == 0,
        TpmCc::NvUndefineSpace.spec_response_handles() == 0,
        TpmCc::ChangeEps.spec_response_handles() == 0,
        TpmCc::ChangePps.spec_response_handles() == 0,
        TpmCc::Clear.spec_response_handles() == 0,
        TpmCc::ClearControl.spec_response_handles() == 0,
        TpmCc::ClockSet.spec_response_handles() == 0,
        TpmCc::HierarchyChangeAuth.spec_response_handles() == 0,
        TpmCc::NvDefineSpace.spec_response_handles() == 0,
        TpmCc::PcrAllocate.spec_response_handles() == 0,
        TpmCc::PcrSetAuthPolicy.spec_response_handles() == 0,
        TpmCc::PpCommands.spec_response_handles() == 0,
        TpmCc::SetPrimaryPolicy.spec_response_handles() == 0,
        TpmCc::FieldUpgradeStart.spec_response_handles() == 0,
        TpmCc::ClockRateAdjust.spec_response_handles() == 0,
        TpmCc::CreatePrimary.spec_response_handles() == 1,
        TpmCc::NvGlobalWriteLock.spec_response_handles() == 0,
        TpmCc::GetCommandAuditDigest.spec_response_handles() == 0,
        TpmCc::NvIncrement.spec_response_handles() == 0,
        TpmCc::NvSetBits.spec_response_handles() == 0,
        TpmCc::NvExtend.spec_response_handles() == 0,
        TpmCc::NvWrite.spec_response_handles() == 0,
        TpmCc::NvWriteLock.spec_response_handles() == 0,
        TpmCc::DictionaryAttackLockReset.spec_response_handles() == 0,
        TpmCc::DictionaryAttackParameters.spec_response_handles() == 0,
        TpmCc::NvChangeAuth.spec_response_handles() == 0,
        TpmCc::PcrEvent.spec_response_handles() == 0,
        TpmCc::PcrReset.spec_response_handles() == 0,
        TpmCc::SequenceComplete.spec_response_handles() == 0,
        TpmCc::SetAlgorithmSet.spec_response_handles() == 0,
        TpmCc::SetCommandCodeAuditStatus.spec_response_handles() == 0,
        TpmCc::FieldUpgradeData.spec_response_handles() == 0,
        TpmCc::IncrementalSelfTest.spec_response_handles() == 0,
        TpmCc::SelfTest.spec_response_handles() == 0,
        TpmCc::Startup.spec_response_handles() == 0,
        TpmCc::Shutdown.spec_response_handles() == 0,
        TpmCc::StirRandom.spec_response_handles() == 0,
        TpmCc::ActivateCredential.spec_response_handles() == 0,
        TpmCc::Certify.spec_response_handles() == 0,
        TpmCc::PolicyNv.spec_response_handles() == 0,
        TpmCc::CertifyCreation.spec_response_handles() == 0,
        TpmCc::Duplicate.spec_response_handles() == 0,
        TpmCc::GetTime.spec_response_handles() == 0,
        TpmCc::GetSessionAuditDigest.spec_response_handles() == 0,
        TpmCc::NvRead.spec_response_handles() == 0,
        TpmCc::NvReadLock.spec_response_handles() == 0,
        TpmCc::ObjectChangeAuth.spec_response_handles() == 0,
        TpmCc::PolicySecret.spec_response_handles() == 0,
        TpmCc::Rewrap.spec_response_handles() == 0,
        TpmCc::Create.spec_response_handles() == 0,
        TpmCc::EcdhZGen.spec_response_handles() == 0,
        TpmCc::Hmac.spec_response_handles() == 0,
        TpmCc::Import.spec_response_handles() == 0,
        TpmCc::Load.spec_response_handles() == 1,
        TpmCc::Quote.spec_response_handles() == 0,
        TpmCc::RsaDecrypt.spec_response_handles() == 0,
        TpmCc::HmacStart.spec_response_handles() == 1,
        TpmCc::SequenceUpdate.spec_response_handles() == 0,
        TpmCc::Sign.spec_response_handles() == 0,
        TpmCc::Unseal.spec_response_handles() == 0,
        TpmCc::PolicySigned.spec_response_handles() == 0,
        TpmCc::ContextLoad.spec_response_handles() == 1,
        TpmCc::ContextSave.spec_response_handles() == 0,
        TpmCc::EcdhKeyGen.spec_response_handles() == 0,
        TpmCc::EncryptDecrypt.spec_response_handles() == 0,
        TpmCc::FlushContext.spec_response_handles() == 0,
        TpmCc::LoadExternal.spec_response_handles() == 1,
        TpmCc::MakeCredential.spec_response_handles() == 0,
        TpmCc::NvReadPublic.spec_response_handles() == 0,
        TpmCc::PolicyAuthorize.spec_response_handles() == 0,
        TpmCc::PolicyAuthValue.spec_response_handles() == 0,
        TpmCc::PolicyCommandCode.spec_response_handles() == 0,
        TpmCc::PolicyCounterTimer.spec_response_handles() == 0,
        TpmCc::PolicyCpHash.spec_response_handles() == 0,
        TpmCc::PolicyLocality.spec_response_handles() == 0,
        TpmCc::PolicyNameHash.spec_response_handles() == 0,
        TpmCc::PolicyOR.spec_response_handles() == 0,
        TpmCc::PolicyTicket.spec_response_handles() == 0,
        TpmCc::ReadPublic.spec_response_handles() == 0,
        TpmCc::RsaEncrypt.spec_response_handles() == 0,
        TpmCc::StartAuthSession.spec_response_handles() == 1,
        TpmCc::VerifySignature.spec_response_handles() == 0,
        TpmCc::EccParameters.spec_response_handles() == 0,
        TpmCc::FirmwareRead.spec_response_handles() == 0,
        TpmCc::GetCapability.spec_response_handles() == 0,
        TpmCc::GetRandom.spec_response_handles() == 0,
        TpmCc::GetTestResult.spec_response_handles() == 0,
        TpmCc::Hash.spec_response_handles() == 0,
        TpmCc::PcrRead.spec_response_handles() == 0,
        TpmCc::PolicyPcr.spec_response_handles() == 0,
        TpmCc::PolicyRestart.spec_response_handles() == 0,
        TpmCc::ReadClock.spec_response_handles() == 0,
        TpmCc::PcrExtend.spec_response_handles() == 0,
        TpmCc::PcrSetAuthValue.spec_response_handles() == 0,
        TpmCc::NvCertify.spec_response_handles() == 0,
        TpmCc::EventSequenceComplete.spec_response_handles() == 0,
        TpmCc::HashSequenceStart.spec_response_handles() == 1,
        TpmCc::PolicyPhysicalPresence.spec_response_handles() == 0,
        TpmCc::PolicyDuplicationSelect.spec_response_handles() == 0,
        TpmCc::PolicyGetDigest.spec_response_handles() == 0,
        TpmCc::TestParms.spec_response_handles() == 0,
        TpmCc::Commit.spec_response_handles() == 0,
        TpmCc::PolicyPassword.spec_response_handles() == 0,
        TpmCc::ZGen2Phase.spec_response_handles() == 0,
        TpmCc::EcEphemeral.spec_response_handles() == 0,
        TpmCc::PolicyNvWritten.spec_response_handles() == 0,
        TpmCc::PolicyTemplate.spec_response_handles() == 0,
        TpmCc::CreateLoaded.spec_response_handles() == 1,
        TpmCc::PolicyAuthorizeNv.spec_response_handles() == 0,
        TpmCc::EncryptDecrypt2.spec_response_handles() == 0,
        TpmCc::AcGetCapability.spec_response_handles() == 0,
        TpmCc::AcSend.spec_response_handles() == 0,
        TpmCc::PolicyAcSendSelect.spec_response_handles() == 0,
        TpmCc::ActSetTimeout.spec_response_handles() == 0,
        TpmCc::EccEncrypt.spec_response_handles() == 0,
        TpmCc::EccDecrypt.spec_response_handles() == 0,
        TpmCc::PolicyCapability.spec_response_handles() == 0,
        TpmCc::PolicyParameters.spec_response_handles() == 0,
        TpmCc::NvDefineSpace2.spec_response_handles() == 0,
        TpmCc::NvReadPublic2.spec_response_handles() == 0,
        TpmCc::ReadOnlyControl.spec_response_handles() == 0,
        TpmCc::PolicyTransportSpdm.spec_response_handles() == 0,
        TpmCc::VendorTcgTest.spec_response_handles() == 0,
{
}

} // verus!
