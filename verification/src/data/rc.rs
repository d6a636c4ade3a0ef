use crate::error::TpmError;
use crate::text::{append_str, decimal_string, spec_decimal};
use vstd::prelude::*;
use vstd::string::StringExecFns;

verus! {

/// The base error code of a TPM 2.0 response code (`TPM_RC`).
#[derive(Debug, Clone, Copy, PartialEq, Eq, Structural)]
pub enum TpmRcBase {
    Success,
    BadTag,
    Initialize,
    Failure,
    Sequence,
    Private,
    Hmac,
    Disabled,
    Exclusive,
    AuthType,
    AuthMissing,
    Policy,
    Pcr,
    PcrChanged,
    Upgrade,
    TooManyContexts,
    AuthUnavailable,
    Reboot,
    Unbalanced,
    CommandSize,
    CommandCode,
    AuthSize,
    AuthContext,
    NvRange,
    NvSize,
    NvLocked,
    NvAuthorization,
    NvUninitialized,
    NvSpace,
    NvDefined,
    BadContext,
    CpHash,
    Parent,
    NeedsTest,
    NoResult,
    Sensitive,
    ReadOnly,
    Asymmetric,
    Attributes,
    Hash,
    Value,
    Hierarchy,
    KeySize,
    Mgf,
    Mode,
    Type,
    Handle,
    Kdf,
    Range,
    AuthFail,
    Nonce,
    Pp,
    Scheme,
    Size,
    Symmetric,
    Tag,
    Selector,
    Insufficient,
    Signature,
    Key,
    PolicyFail,
    Integrity,
    Ticket,
    ReservedBits,
    BadAuth,
    Expired,
    PolicyCc,
    Binding,
    Curve,
    EccPoint,
    FwLimited,
    SvnLimited,
    Channel,
    ChannelKey,
    ContextGap,
    ObjectMemory,
    SessionMemory,
    Memory,
    SessionHandles,
    ObjectHandles,
    Locality,
    Yielded,
    Canceled,
    Testing,
    ReferenceH0,
    ReferenceH1,
    ReferenceH2,
    ReferenceH3,
    ReferenceH4,
    ReferenceH5,
    ReferenceH6,
    ReferenceS0,
    ReferenceS1,
    ReferenceS2,
    ReferenceS3,
    ReferenceS4,
    ReferenceS5,
    ReferenceS6,
    NvRate,
    Lockout,
    Retry,
    NvUnavailable,
    NotUsed,
}

impl TpmRcBase {
    /// The numeric encoding of this value.
    pub open spec fn spec_value(self) -> u32 {
        match self {
            TpmRcBase::Success => 0x0000,
            TpmRcBase::BadTag => 0x001E,
            TpmRcBase::Initialize => 0x0100,
            TpmRcBase::Failure => 0x0101,
            TpmRcBase::Sequence => 0x0103,
            TpmRcBase::Private => 0x010B,
            TpmRcBase::Hmac => 0x0119,
            TpmRcBase::Disabled => 0x0120,
            TpmRcBase::Exclusive => 0x0121,
            TpmRcBase::AuthType => 0x0124,
            TpmRcBase::AuthMissing => 0x0125,
            TpmRcBase::Policy => 0x0126,
            TpmRcBase::Pcr => 0x0127,
            TpmRcBase::PcrChanged => 0x0128,
            TpmRcBase::Upgrade => 0x012D,
            TpmRcBase::TooManyContexts => 0x012E,
            TpmRcBase::AuthUnavailable => 0x012F,
            TpmRcBase::Reboot => 0x0130,
            TpmRcBase::Unbalanced => 0x0131,
            TpmRcBase::CommandSize => 0x0142,
            TpmRcBase::CommandCode => 0x0143,
            TpmRcBase::AuthSize => 0x0144,
            TpmRcBase::AuthContext => 0x0145,
            TpmRcBase::NvRange => 0x0146,
            TpmRcBase::NvSize => 0x0147,
            TpmRcBase::NvLocked => 0x0148,
            TpmRcBase::NvAuthorization => 0x0149,
            TpmRcBase::NvUninitialized => 0x014A,
            TpmRcBase::NvSpace => 0x014B,
            TpmRcBase::NvDefined => 0x014C,
            TpmRcBase::BadContext => 0x0150,
            TpmRcBase::CpHash => 0x0151,
            TpmRcBase::Parent => 0x0152,
            TpmRcBase::NeedsTest => 0x0153,
            TpmRcBase::NoResult => 0x0154,
            TpmRcBase::Sensitive => 0x0155,
            TpmRcBase::ReadOnly => 0x0156,
            TpmRcBase::Asymmetric => 0x0081,
            TpmRcBase::Attributes => 0x0082,
            TpmRcBase::Hash => 0x0083,
            TpmRcBase::Value => 0x0084,
            TpmRcBase::Hierarchy => 0x0085,
            TpmRcBase::KeySize => 0x0087,
            TpmRcBase::Mgf => 0x0088,
            TpmRcBase::Mode => 0x0089,
            TpmRcBase::Type => 0x008A,
            TpmRcBase::Handle => 0x008B,
            TpmRcBase::Kdf => 0x008C,
            TpmRcBase::Range => 0x008D,
            TpmRcBase::AuthFail => 0x008E,
            TpmRcBase::Nonce => 0x008F,
            TpmRcBase::Pp => 0x0090,
            TpmRcBase::Scheme => 0x0092,
            TpmRcBase::Size => 0x0095,
            TpmRcBase::Symmetric => 0x0096,
            TpmRcBase::Tag => 0x0097,
            TpmRcBase::Selector => 0x0098,
            TpmRcBase::Insufficient => 0x009A,
            TpmRcBase::Signature => 0x009B,
            TpmRcBase::Key => 0x009C,
            TpmRcBase::PolicyFail => 0x009D,
            TpmRcBase::Integrity => 0x009F,
            TpmRcBase::Ticket => 0x00A0,
            TpmRcBase::ReservedBits => 0x00A1,
            TpmRcBase::BadAuth => 0x00A2,
            TpmRcBase::Expired => 0x00A3,
            TpmRcBase::PolicyCc => 0x00A4,
            TpmRcBase::Binding => 0x00A5,
            TpmRcBase::Curve => 0x00A6,
            TpmRcBase::EccPoint => 0x00A7,
            TpmRcBase::FwLimited => 0x00A8,
            TpmRcBase::SvnLimited => 0x00A9,
            TpmRcBase::Channel => 0x00B0,
            TpmRcBase::ChannelKey => 0x00B1,
            TpmRcBase::ContextGap => 0x0901,
            TpmRcBase::ObjectMemory => 0x0902,
            TpmRcBase::SessionMemory => 0x0903,
            TpmRcBase::Memory => 0x0904,
            TpmRcBase::SessionHandles => 0x0905,
            TpmRcBase::ObjectHandles => 0x0906,
            TpmRcBase::Locality => 0x0907,
            TpmRcBase::Yielded => 0x0908,
            TpmRcBase::Canceled => 0x0909,
            TpmRcBase::Testing => 0x090A,
            TpmRcBase::ReferenceH0 => 0x0910,
            TpmRcBase::ReferenceH1 => 0x0911,
            TpmRcBase::ReferenceH2 => 0x0912,
            TpmRcBase::ReferenceH3 => 0x0913,
            TpmRcBase::ReferenceH4 => 0x0914,
            TpmRcBase::ReferenceH5 => 0x0915,
            TpmRcBase::ReferenceH6 => 0x0916,
            TpmRcBase::ReferenceS0 => 0x0918,
            TpmRcBase::ReferenceS1 => 0x0919,
            TpmRcBase::ReferenceS2 => 0x091A,
            TpmRcBase::ReferenceS3 => 0x091B,
            TpmRcBase::ReferenceS4 => 0x091C,
            TpmRcBase::ReferenceS5 => 0x091D,
            TpmRcBase::ReferenceS6 => 0x091E,
            TpmRcBase::NvRate => 0x0920,
            TpmRcBase::Lockout => 0x0921,
            TpmRcBase::Retry => 0x0922,
            TpmRcBase::NvUnavailable => 0x0923,
            TpmRcBase::NotUsed => 0xFFFF_FFFF,
        }
    }

    /// Returns the numeric encoding.
    #[verifier::when_used_as_spec(spec_value)]
    pub fn value(self) -> (v: u32)
        ensures
            v == self.spec_value(),
    {
        match self {
            TpmRcBase::Success => 0x0000,
            TpmRcBase::BadTag => 0x001E,
            TpmRcBase::Initialize => 0x0100,
            TpmRcBase::Failure => 0x0101,
            TpmRcBase::Sequence => 0x0103,
            TpmRcBase::Private => 0x010B,
            TpmRcBase::Hmac => 0x0119,
            TpmRcBase::Disabled => 0x0120,
            TpmRcBase::Exclusive => 0x0121,
            TpmRcBase::AuthType => 0x0124,
            TpmRcBase::AuthMissing => 0x0125,
            TpmRcBase::Policy => 0x0126,
            TpmRcBase::Pcr => 0x0127,
            TpmRcBase::PcrChanged => 0x0128,
            TpmRcBase::Upgrade => 0x012D,
            TpmRcBase::TooManyContexts => 0x012E,
            TpmRcBase::AuthUnavailable => 0x012F,
            TpmRcBase::Reboot => 0x0130,
            TpmRcBase::Unbalanced => 0x0131,
            TpmRcBase::CommandSize => 0x0142,
            TpmRcBase::CommandCode => 0x0143,
            TpmRcBase::AuthSize => 0x0144,
            TpmRcBase::AuthContext => 0x0145,
            TpmRcBase::NvRange => 0x0146,
            TpmRcBase::NvSize => 0x0147,
            TpmRcBase::NvLocked => 0x0148,
            TpmRcBase::NvAuthorization => 0x0149,
            TpmRcBase::NvUninitialized => 0x014A,
            TpmRcBase::NvSpace => 0x014B,
            TpmRcBase::NvDefined => 0x014C,
            TpmRcBase::BadContext => 0x0150,
            TpmRcBase::CpHash => 0x0151,
            TpmRcBase::Parent => 0x0152,
            TpmRcBase::NeedsTest => 0x0153,
            TpmRcBase::NoResult => 0x0154,
            TpmRcBase::Sensitive => 0x0155,
            TpmRcBase::ReadOnly => 0x0156,
            TpmRcBase::Asymmetric => 0x0081,
            TpmRcBase::Attributes => 0x0082,
            TpmRcBase::Hash => 0x0083,
            TpmRcBase::Value => 0x0084,
            TpmRcBase::Hierarchy => 0x0085,
            TpmRcBase::KeySize => 0x0087,
            TpmRcBase::Mgf => 0x0088,
            TpmRcBase::Mode => 0x0089,
            TpmRcBase::Type => 0x008A,
            TpmRcBase::Handle => 0x008B,
            TpmRcBase::Kdf => 0x008C,
            TpmRcBase::Range => 0x008D,
            TpmRcBase::AuthFail => 0x008E,
            TpmRcBase::Nonce => 0x008F,
            TpmRcBase::Pp => 0x0090,
            TpmRcBase::Scheme => 0x0092,
            TpmRcBase::Size => 0x0095,
            TpmRcBase::Symmetric => 0x0096,
            TpmRcBase::Tag => 0x0097,
            TpmRcBase::Selector => 0x0098,
            TpmRcBase::Insufficient => 0x009A,
            TpmRcBase::Signature => 0x009B,
            TpmRcBase::Key => 0x009C,
            TpmRcBase::PolicyFail => 0x009D,
            TpmRcBase::Integrity => 0x009F,
            TpmRcBase::Ticket => 0x00A0,
            TpmRcBase::ReservedBits => 0x00A1,
            TpmRcBase::BadAuth => 0x00A2,
            TpmRcBase::Expired => 0x00A3,
            TpmRcBase::PolicyCc => 0x00A4,
            TpmRcBase::Binding => 0x00A5,
            TpmRcBase::Curve => 0x00A6,
            TpmRcBase::EccPoint => 0x00A7,
            TpmRcBase::FwLimited => 0x00A8,
            TpmRcBase::SvnLimited => 0x00A9,
            TpmRcBase::Channel => 0x00B0,
            TpmRcBase::ChannelKey => 0x00B1,
            TpmRcBase::ContextGap => 0x0901,
            TpmRcBase::ObjectMemory => 0x0902,
            TpmRcBase::SessionMemory => 0x0903,
            TpmRcBase::Memory => 0x0904,
            TpmRcBase::SessionHandles => 0x0905,
            TpmRcBase::ObjectHandles => 0x0906,
            TpmRcBase::Locality => 0x0907,
            TpmRcBase::Yielded => 0x0908,
            TpmRcBase::Canceled => 0x0909,
            TpmRcBase::Testing => 0x090A,
            TpmRcBase::ReferenceH0 => 0x0910,
            TpmRcBase::ReferenceH1 => 0x0911,
            TpmRcBase::ReferenceH2 => 0x0912,
            TpmRcBase::ReferenceH3 => 0x0913,
            TpmRcBase::ReferenceH4 => 0x0914,
            TpmRcBase::ReferenceH5 => 0x0915,
            TpmRcBase::ReferenceH6 => 0x0916,
            TpmRcBase::ReferenceS0 => 0x0918,
            TpmRcBase::ReferenceS1 => 0x0919,
            TpmRcBase::ReferenceS2 => 0x091A,
            TpmRcBase::ReferenceS3 => 0x091B,
            TpmRcBase::ReferenceS4 => 0x091C,
            TpmRcBase::ReferenceS5 => 0x091D,
            TpmRcBase::ReferenceS6 => 0x091E,
            TpmRcBase::NvRate => 0x0920,
            TpmRcBase::Lockout => 0x0921,
            TpmRcBase::Retry => 0x0922,
            TpmRcBase::NvUnavailable => 0x0923,
            TpmRcBase::NotUsed => 0xFFFF_FFFF,
        }
    }

    /// Decodes a numeric value, if it encodes a variant.
    pub fn from_u32(value: u32) -> (r: Option<TpmRcBase>)
        ensures
            r == spec_tpm_rc_base_from_u32(value),
    {
        match value {
            0x0000 => Some(TpmRcBase::Success),
            0x001E => Some(TpmRcBase::BadTag),
            0x0100 => Some(TpmRcBase::Initialize),
            0x0101 => Some(TpmRcBase::Failure),
            0x0103 => Some(TpmRcBase::Sequence),
            0x010B => Some(TpmRcBase::Private),
            0x0119 => Some(TpmRcBase::Hmac),
            0x0120 => Some(TpmRcBase::Disabled),
            0x0121 => Some(TpmRcBase::Exclusive),
            0x0124 => Some(TpmRcBase::AuthType),
            0x0125 => Some(TpmRcBase::AuthMissing),
            0x0126 => Some(TpmRcBase::Policy),
            0x0127 => Some(TpmRcBase::Pcr),
            0x0128 => Some(TpmRcBase::PcrChanged),
            0x012D => Some(TpmRcBase::Upgrade),
            0x012E => Some(TpmRcBase::TooManyContexts),
            0x012F => Some(TpmRcBase::AuthUnavailable),
            0x0130 => Some(TpmRcBase::Reboot),
            0x0131 => Some(TpmRcBase::Unbalanced),
            0x0142 => Some(TpmRcBase::CommandSize),
            0x0143 => Some(TpmRcBase::CommandCode),
            0x0144 => Some(TpmRcBase::AuthSize),
            0x0145 => Some(TpmRcBase::AuthContext),
            0x0146 => Some(TpmRcBase::NvRange),
            0x0147 => Some(TpmRcBase::NvSize),
            0x0148 => Some(TpmRcBase::NvLocked),
            0x0149 => Some(TpmRcBase::NvAuthorization),
            0x014A => Some(TpmRcBase::NvUninitialized),
            0x014B => Some(TpmRcBase::NvSpace),
            0x014C => Some(TpmRcBase::NvDefined),
            0x0150 => Some(TpmRcBase::BadContext),
            0x0151 => Some(TpmRcBase::CpHash),
            0x0152 => Some(TpmRcBase::Parent),
            0x0153 => Some(TpmRcBase::NeedsTest),
            0x0154 => Some(TpmRcBase::NoResult),
            0x0155 => Some(TpmRcBase::Sensitive),
            0x0156 => Some(TpmRcBase::ReadOnly),
            0x0081 => Some(TpmRcBase::Asymmetric),
            0x0082 => Some(TpmRcBase::Attributes),
            0x0083 => Some(TpmRcBase::Hash),
            0x0084 => Some(TpmRcBase::Value),
            0x0085 => Some(TpmRcBase::Hierarchy),
            0x0087 => Some(TpmRcBase::KeySize),
            0x0088 => Some(TpmRcBase::Mgf),
            0x0089 => Some(TpmRcBase::Mode),
            0x008A => Some(TpmRcBase::Type),
            0x008B => Some(TpmRcBase::Handle),
            0x008C => Some(TpmRcBase::Kdf),
            0x008D => Some(TpmRcBase::Range),
            0x008E => Some(TpmRcBase::AuthFail),
            0x008F => Some(TpmRcBase::Nonce),
            0x0090 => Some(TpmRcBase::Pp),
            0x0092 => Some(TpmRcBase::Scheme),
            0x0095 => Some(TpmRcBase::Size),
            0x0096 => Some(TpmRcBase::Symmetric),
            0x0097 => Some(TpmRcBase::Tag),
            0x0098 => Some(TpmRcBase::Selector),
            0x009A => Some(TpmRcBase::Insufficient),
            0x009B => Some(TpmRcBase::Signature),
            0x009C => Some(TpmRcBase::Key),
            0x009D => Some(TpmRcBase::PolicyFail),
            0x009F => Some(TpmRcBase::Integrity),
            0x00A0 => Some(TpmRcBase::Ticket),
            0x00A1 => Some(TpmRcBase::ReservedBits),
            0x00A2 => Some(TpmRcBase::BadAuth),
            0x00A3 => Some(TpmRcBase::Expired),
            0x00A4 => Some(TpmRcBase::PolicyCc),
            0x00A5 => Some(TpmRcBase::Binding),
            0x00A6 => Some(TpmRcBase::Curve),
            0x00A7 => Some(TpmRcBase::EccPoint),
            0x00A8 => Some(TpmRcBase::FwLimited),
            0x00A9 => Some(TpmRcBase::SvnLimited),
            0x00B0 => Some(TpmRcBase::Channel),
            0x00B1 => Some(TpmRcBase::ChannelKey),
            0x0901 => Some(TpmRcBase::ContextGap),
            0x0902 => Some(TpmRcBase::ObjectMemory),
            0x0903 => Some(TpmRcBase::SessionMemory),
            0x0904 => Some(TpmRcBase::Memory),
            0x0905 => Some(TpmRcBase::SessionHandles),
            0x0906 => Some(TpmRcBase::ObjectHandles),
            0x0907 => Some(TpmRcBase::Locality),
            0x0908 => Some(TpmRcBase::Yielded),
            0x0909 => Some(TpmRcBase::Canceled),
            0x090A => Some(TpmRcBase::Testing),
            0x0910 => Some(TpmRcBase::ReferenceH0),
            0x0911 => Some(TpmRcBase::ReferenceH1),
            0x0912 => Some(TpmRcBase::ReferenceH2),
            0x0913 => Some(TpmRcBase::ReferenceH3),
            0x0914 => Some(TpmRcBase::ReferenceH4),
            0x0915 => Some(TpmRcBase::ReferenceH5),
            0x0916 => Some(TpmRcBase::ReferenceH6),
            0x0918 => Some(TpmRcBase::ReferenceS0),
            0x0919 => Some(TpmRcBase::ReferenceS1),
            0x091A => Some(TpmRcBase::ReferenceS2),
            0x091B => Some(TpmRcBase::ReferenceS3),
            0x091C => Some(TpmRcBase::ReferenceS4),
            0x091D => Some(TpmRcBase::ReferenceS5),
            0x091E => Some(TpmRcBase::ReferenceS6),
            0x0920 => Some(TpmRcBase::NvRate),
            0x0921 => Some(TpmRcBase::Lockout),
            0x0922 => Some(TpmRcBase::Retry),
            0x0923 => Some(TpmRcBase::NvUnavailable),
            0xFFFF_FFFF => Some(TpmRcBase::NotUsed),
            _ => None,
        }
    }
}

/// The variant of `TpmRcBase` encoded by `value`, if there is one.
pub open spec fn spec_tpm_rc_base_from_u32(value: u32) -> Option<TpmRcBase> {
    match value {
        0x0000 => Some(TpmRcBase::Success),
        0x001E => Some(TpmRcBase::BadTag),
        0x0100 => Some(TpmRcBase::Initialize),
        0x0101 => Some(TpmRcBase::Failure),
        0x0103 => Some(TpmRcBase::Sequence),
        0x010B => Some(TpmRcBase::Private),
        0x0119 => Some(TpmRcBase::Hmac),
        0x0120 => Some(TpmRcBase::Disabled),
        0x0121 => Some(TpmRcBase::Exclusive),
        0x0124 => Some(TpmRcBase::AuthType),
        0x0125 => Some(TpmRcBase::AuthMissing),
        0x0126 => Some(TpmRcBase::Policy),
        0x0127 => Some(TpmRcBase::Pcr),
        0x0128 => Some(TpmRcBase::PcrChanged),
        0x012D => Some(TpmRcBase::Upgrade),
        0x012E => Some(TpmRcBase::TooManyContexts),
        0x012F => Some(TpmRcBase::AuthUnavailable),
        0x0130 => Some(TpmRcBase::Reboot),
        0x0131 => Some(TpmRcBase::Unbalanced),
        0x0142 => Some(TpmRcBase::CommandSize),
        0x0143 => Some(TpmRcBase::CommandCode),
        0x0144 => Some(TpmRcBase::AuthSize),
        0x0145 => Some(TpmRcBase::AuthContext),
        0x0146 => Some(TpmRcBase::NvRange),
        0x0147 => Some(TpmRcBase::NvSize),
        0x0148 => Some(TpmRcBase::NvLocked),
        0x0149 => Some(TpmRcBase::NvAuthorization),
        0x014A => Some(TpmRcBase::NvUninitialized),
        0x014B => Some(TpmRcBase::NvSpace),
        0x014C => Some(TpmRcBase::NvDefined),
        0x0150 => Some(TpmRcBase::BadContext),
        0x0151 => Some(TpmRcBase::CpHash),
        0x0152 => Some(TpmRcBase::Parent),
        0x0153 => Some(TpmRcBase::NeedsTest),
        0x0154 => Some(TpmRcBase::NoResult),
        0x0155 => Some(TpmRcBase::Sensitive),
        0x0156 => Some(TpmRcBase::ReadOnly),
        0x0081 => Some(TpmRcBase::Asymmetric),
        0x0082 => Some(TpmRcBase::Attributes),
        0x0083 => Some(TpmRcBase::Hash),
        0x0084 => Some(TpmRcBase::Value),
        0x0085 => Some(TpmRcBase::Hierarchy),
        0x0087 => Some(TpmRcBase::KeySize),
        0x0088 => Some(TpmRcBase::Mgf),
        0x0089 => Some(TpmRcBase::Mode),
        0x008A => Some(TpmRcBase::Type),
        0x008B => Some(TpmRcBase::Handle),
        0x008C => Some(TpmRcBase::Kdf),
        0x008D => Some(TpmRcBase::Range),
        0x008E => Some(TpmRcBase::AuthFail),
        0x008F => Some(TpmRcBase::Nonce),
        0x0090 => Some(TpmRcBase::Pp),
        0x0092 => Some(TpmRcBase::Scheme),
        0x0095 => Some(TpmRcBase::Size),
        0x0096 => Some(TpmRcBase::Symmetric),
        0x0097 => Some(TpmRcBase::Tag),
        0x0098 => Some(TpmRcBase::Selector),
        0x009A => Some(TpmRcBase::Insufficient),
        0x009B => Some(TpmRcBase::Signature),
        0x009C => Some(TpmRcBase::Key),
        0x009D => Some(TpmRcBase::PolicyFail),
        0x009F => Some(TpmRcBase::Integrity),
        0x00A0 => Some(TpmRcBase::Ticket),
        0x00A1 => Some(TpmRcBase::ReservedBits),
        0x00A2 => Some(TpmRcBase::BadAuth),
        0x00A3 => Some(TpmRcBase::Expired),
        0x00A4 => Some(TpmRcBase::PolicyCc),
        0x00A5 => Some(TpmRcBase::Binding),
        0x00A6 => Some(TpmRcBase::Curve),
        0x00A7 => Some(TpmRcBase::EccPoint),
        0x00A8 => Some(TpmRcBase::FwLimited),
        0x00A9 => Some(TpmRcBase::SvnLimited),
        0x00B0 => Some(TpmRcBase::Channel),
        0x00B1 => Some(TpmRcBase::ChannelKey),
        0x0901 => Some(TpmRcBase::ContextGap),
        0x0902 => Some(TpmRcBase::ObjectMemory),
        0x0903 => Some(TpmRcBase::SessionMemory),
        0x0904 => Some(TpmRcBase::Memory),
        0x0905 => Some(TpmRcBase::SessionHandles),
        0x0906 => Some(TpmRcBase::ObjectHandles),
        0x0907 => Some(TpmRcBase::Locality),
        0x0908 => Some(TpmRcBase::Yielded),
        0x0909 => Some(TpmRcBase::Canceled),
        0x090A => Some(TpmRcBase::Testing),
        0x0910 => Some(TpmRcBase::ReferenceH0),
        0x0911 => Some(TpmRcBase::ReferenceH1),
        0x0912 => Some(TpmRcBase::ReferenceH2),
        0x0913 => Some(TpmRcBase::ReferenceH3),
        0x0914 => Some(TpmRcBase::ReferenceH4),
        0x0915 => Some(TpmRcBase::ReferenceH5),
        0x0916 => Some(TpmRcBase::ReferenceH6),
        0x0918 => Some(TpmRcBase::ReferenceS0),
        0x0919 => Some(TpmRcBase::ReferenceS1),
        0x091A => Some(TpmRcBase::ReferenceS2),
        0x091B => Some(TpmRcBase::ReferenceS3),
        0x091C => Some(TpmRcBase::ReferenceS4),
        0x091D => Some(TpmRcBase::ReferenceS5),
        0x091E => Some(TpmRcBase::ReferenceS6),
        0x0920 => Some(TpmRcBase::NvRate),
        0x0921 => Some(TpmRcBase::Lockout),
        0x0922 => Some(TpmRcBase::Retry),
        0x0923 => Some(TpmRcBase::NvUnavailable),
        0xFFFF_FFFF => Some(TpmRcBase::NotUsed),
        _ => None,
    }
}
/// Decoding a base code's encoding gives the base code back.
pub proof fn lemma_rc_base_value_roundtrip(base: TpmRcBase)
    ensures
        spec_tpm_rc_base_from_u32(base.spec_value()) == Some(base),
{
}

/// A decoded base code has the decoded number as its encoding.
pub proof fn lemma_rc_base_from_value(value: u32)
    ensures
        spec_tpm_rc_base_from_u32(value) matches Some(base) ==> base.spec_value() == value,
{
}

/// Bit marking a version 1 response code.
pub const TPM_RC_VER1: u32 = 0x0100;
/// Bit marking a format-one response code.
pub const TPM_RC_FMT1: u32 = 0x0080;
/// Bits marking a warning response code.
pub const TPM_RC_WARN: u32 = 0x0900;
/// Bit marking a format-one parameter index.
pub const TPM_RC_P_BIT: u32 = 0x40;
/// Shift of the format-one index number.
pub const TPM_RC_N_SHIFT: u32 = 8;
/// Mask of the format-one error number.
pub const TPM_RC_FMT1_ERROR_MASK: u32 = 0x003F;

/// Largest index number that denotes a handle in a format-one code.
pub const MAX_HANDLE_INDEX: u8 = 7;
/// Index numbers from this value up denote sessions in a format-one code.
pub const SESSION_INDEX_OFFSET: u8 = 8;

/// The parameter, handle or session that a format-one response code refers to.
#[derive(Debug, Clone, Copy, PartialEq, Eq, Structural)]
pub enum TpmRcIndex {
    Parameter(u8),
    Handle(u8),
    Session(u8),
}

/// A TPM 2.0 response code with a Format 1 structure.
#[derive(Debug, Clone, Copy, PartialEq, Eq, Structural)]
pub struct TpmRcFmt1 {
    pub base: TpmRcBase,
    pub index: Option<TpmRcIndex>,
}

/// A TPM 2.0 response code.
#[derive(Debug, Clone, Copy, PartialEq, Eq, Structural)]
pub enum TpmRc {
    Fmt0(TpmRcBase),
    Fmt1(TpmRcFmt1),
    Warn(TpmRcBase),
}

/// The bits that an optional format-one index adds to a response code.
pub open spec fn spec_index_bits(index: Option<TpmRcIndex>) -> u32 {
    match index {
        None => 0,
        Some(TpmRcIndex::Parameter(n)) => TPM_RC_P_BIT | ((n as u32) << TPM_RC_N_SHIFT),
        Some(TpmRcIndex::Handle(n)) => (n as u32) << TPM_RC_N_SHIFT,
        Some(TpmRcIndex::Session(n)) => ((n + SESSION_INDEX_OFFSET) as u32) << TPM_RC_N_SHIFT,
    }
}

impl TpmRc {
    /// `value` is defined: a session index leaves room for the session offset
    /// in a `u8`.
    pub open spec fn value_defined(self) -> bool {
        match self {
            TpmRc::Fmt1(fmt1) => match fmt1.index {
                Some(TpmRcIndex::Session(n)) => n + SESSION_INDEX_OFFSET <= u8::MAX,
                _ => true,
            },
            _ => true,
        }
    }

    /// The raw encoding of the response code.
    pub open spec fn spec_value(self) -> u32 {
        match self {
            TpmRc::Fmt0(base) => base.spec_value(),
            TpmRc::Warn(base) => base.spec_value(),
            TpmRc::Fmt1(fmt1) => fmt1.base.spec_value() | spec_index_bits(fmt1.index),
        }
    }

    /// The base code of any response code.
    pub open spec fn spec_base(&self) -> TpmRcBase {
        match *self {
            TpmRc::Fmt0(base) => base,
            TpmRc::Warn(base) => base,
            TpmRc::Fmt1(fmt1) => fmt1.base,
        }
    }

    /// Returns the raw `u32` value of the response code.
    #[verifier::when_used_as_spec(spec_value)]
    pub fn value(self) -> (v: u32)
        requires
            self.value_defined(),
        ensures
            v == self.spec_value(),
    {
        match self {
            TpmRc::Fmt0(base) => {
                let v = base.value();
                v
            },
            TpmRc::Warn(base) => base.value(),
            TpmRc::Fmt1(fmt1) => {
                let mut value = fmt1.base.value();
                if let Some(index) = fmt1.index {
                    let (is_parameter, num) = match index {
                        TpmRcIndex::Parameter(n) => (true, n),
                        TpmRcIndex::Handle(n) => (false, n),
                        TpmRcIndex::Session(n) => (false, n + SESSION_INDEX_OFFSET),
                    };
                    let base_value = value;
                    if is_parameter {
                        value = value | TPM_RC_P_BIT;
                    }
                    value = value | ((num as u32) << TPM_RC_N_SHIFT);
                    proof {
                        let nn = num as u32;
                        assert((base_value | TPM_RC_P_BIT) | (nn << TPM_RC_N_SHIFT)
                            == base_value | (TPM_RC_P_BIT | (nn << TPM_RC_N_SHIFT))) by (bit_vector);
                        assert(value == base_value | spec_index_bits(fmt1.index));
                    }
                } else {
                    assert(value | 0 == value) by (bit_vector);
                }
                value
            },
        }
    }

    /// Returns the underlying `TpmRcBase` for any `TpmRc` variant.
    #[verifier::when_used_as_spec(spec_base)]
    pub fn base(&self) -> (b: TpmRcBase)
        ensures
            b == self.spec_base(),
    {
        match self {
            TpmRc::Fmt0(base) => *base,
            TpmRc::Warn(base) => *base,
            TpmRc::Fmt1(fmt1) => fmt1.base,
        }
    }

    /// Decodes a raw response code.
    pub fn try_from_u32(value: u32) -> (r: Result<TpmRc, TpmError>)
        ensures
            r == spec_rc_from_u32(value),
    {
        let base_code = if (value & TPM_RC_FMT1) != 0 {
            TPM_RC_FMT1 | (value & TPM_RC_FMT1_ERROR_MASK)
        } else {
            value
        };
        let base = match TpmRcBase::from_u32(base_code) {
            Some(base) => base,
            None => return Err(TpmError::InvalidDiscriminant { value: base_code as u64 }),
        };
        if (value & TPM_RC_WARN) == TPM_RC_WARN {
            Ok(TpmRc::Warn(base))
        } else if (value & TPM_RC_FMT1) != 0 {
            let is_parameter = (value & TPM_RC_P_BIT) != 0;
            let n = ((value >> TPM_RC_N_SHIFT) & 0b1111) as u8;
            let index = if n == 0 {
                None
            } else if is_parameter {
                Some(TpmRcIndex::Parameter(n))
            } else if n <= MAX_HANDLE_INDEX {
                Some(TpmRcIndex::Handle(n))
            } else {
                Some(TpmRcIndex::Session(n - SESSION_INDEX_OFFSET))
            };
            Ok(TpmRc::Fmt1(TpmRcFmt1 { base, index }))
        } else {
            Ok(TpmRc::Fmt0(base))
        }
    }
}

/// The base code number that a raw response code selects.
pub open spec fn spec_rc_base_code(value: u32) -> u32 {
    if (value & TPM_RC_FMT1) != 0 {
        TPM_RC_FMT1 | (value & TPM_RC_FMT1_ERROR_MASK)
    } else {
        value
    }
}

/// The index number field of a raw format-one response code.
pub open spec fn spec_rc_index_number(value: u32) -> u8 {
    ((value >> TPM_RC_N_SHIFT) & 0b1111) as u8
}

/// The index that a raw format-one response code refers to.
pub open spec fn spec_rc_index(value: u32) -> Option<TpmRcIndex> {
    let n = spec_rc_index_number(value);
    if n == 0 {
        None
    } else if (value & TPM_RC_P_BIT) != 0 {
        Some(TpmRcIndex::Parameter(n))
    } else if n <= MAX_HANDLE_INDEX {
        Some(TpmRcIndex::Handle(n))
    } else {
        Some(TpmRcIndex::Session((n - SESSION_INDEX_OFFSET) as u8))
    }
}

/// The response code that a raw value decodes to.
///
/// The base code is taken from the low bits (the error number and the
/// format-one bit when that bit is set); a value whose warning bits are both
/// set is a warning, one with the format-one bit set is a format-one code with
/// its index, any other is a format-zero code.
pub open spec fn spec_rc_from_u32(value: u32) -> Result<TpmRc, TpmError> {
    let base_code = spec_rc_base_code(value);
    match spec_tpm_rc_base_from_u32(base_code) {
        None => Err(TpmError::InvalidDiscriminant { value: base_code as u64 }),
        Some(base) => if (value & TPM_RC_WARN) == TPM_RC_WARN {
            Ok(TpmRc::Warn(base))
        } else if (value & TPM_RC_FMT1) != 0 {
            Ok(TpmRc::Fmt1(TpmRcFmt1 { base, index: spec_rc_index(value) }))
        } else {
            Ok(TpmRc::Fmt0(base))
        },
    }
}

impl TpmRc {
    /// The response code is one that decoding can produce and that its
    /// encoding decodes back to: a format-zero or warning base under the
    /// matching variant, and a format-one base with an index whose number does
    /// not set both warning bits.
    pub open spec fn is_canonical(self) -> bool {
        match self {
            TpmRc::Fmt0(base) => (base.spec_value() & TPM_RC_FMT1) == 0
                && (base.spec_value() & TPM_RC_WARN) != TPM_RC_WARN,
            TpmRc::Warn(base) => (base.spec_value() & TPM_RC_FMT1) == 0
                && (base.spec_value() & TPM_RC_WARN) == TPM_RC_WARN,
            TpmRc::Fmt1(fmt1) => TPM_RC_FMT1 <= fmt1.base.spec_value() <= 0xBF
                && match fmt1.index {
                    None => true,
                    Some(TpmRcIndex::Parameter(n)) => 1 <= n <= 15 && (n & 9) != 9,
                    Some(TpmRcIndex::Handle(n)) => 1 <= n <= MAX_HANDLE_INDEX,
                    Some(TpmRcIndex::Session(n)) => n <= 7 && (n & 1) == 0,
                },
        }
    }
}

proof fn lemma_fmt1_bits(b: u32, p: u32, n: u32)
    by (bit_vector)
    requires
        0x80 <= b <= 0xBF,
        p == 0 || p == 0x40,
        n <= 15,
        (n & 9) != 9,
    ensures
        (b | (p | (n << 8))) & 0x80 != 0,
        (0x80 | ((b | (p | (n << 8))) & 0x3F)) == b,
        ((b | (p | (n << 8))) & 0x900) != 0x900,
        (((b | (p | (n << 8))) & 0x40) != 0) == (p == 0x40),
        (((b | (p | (n << 8))) >> 8) & 0xF) == n,
{
}

/// Decoding the encoding of a canonical response code gives the response code
/// back.
pub proof fn lemma_rc_decode_encode(rc: TpmRc)
    requires
        rc.is_canonical(),
    ensures
        rc.value_defined(),
        spec_rc_from_u32(rc.spec_value()) == Ok::<TpmRc, TpmError>(rc),
{
    match rc {
        TpmRc::Fmt0(base) => {
            lemma_rc_base_value_roundtrip(base);
        },
        TpmRc::Warn(base) => {
            lemma_rc_base_value_roundtrip(base);
        },
        TpmRc::Fmt1(fmt1) => {
            let b = fmt1.base.spec_value();
            lemma_rc_base_value_roundtrip(fmt1.base);
            match fmt1.index {
                None => {
                    assert((0u32 & 9) != 9) by (bit_vector);
                    lemma_fmt1_bits(b, 0, 0);
                    assert((b | (0u32 | (0u32 << 8u32))) == b | 0) by (bit_vector);
                },
                Some(TpmRcIndex::Parameter(n)) => {
                    assert((n as u32) & 9 != 9) by (bit_vector)
                        requires
                            n & 9 != 9,
                    ;
                    lemma_fmt1_bits(b, 0x40, n as u32);
                },
                Some(TpmRcIndex::Handle(n)) => {
                    assert(((n as u32) & 9) != 9) by (bit_vector)
                        requires
                            n <= 7,
                    ;
                    lemma_fmt1_bits(b, 0, n as u32);
                    assert((b | (0u32 | ((n as u32) << 8u32))) == b | ((n as u32) << 8u32))
                        by (bit_vector);
                },
                Some(TpmRcIndex::Session(n)) => {
                    let m = (n + SESSION_INDEX_OFFSET) as u32;
                    assert((m & 9) != 9) by (bit_vector)
                        requires
                            m == n + 8,
                            n <= 7,
                            (n & 1) == 0,
                    ;
                    lemma_fmt1_bits(b, 0, m);
                    assert((b | (0u32 | (m << 8u32))) == b | (m << 8u32)) by (bit_vector);
                },
            }
        },
    }
}

/// Every base code lies in the range of its kind: format zero below 0x80 or
/// from 0x100 to 0x17F, format one from 0x80 to 0xBF, warnings from 0x900 to
/// 0x97F, and the unused marker at the top.
proof fn lemma_rc_base_ranges(b: TpmRcBase)
    ensures
        ({
            let v = b.spec_value();
            ||| v <= 0xBF
            ||| 0x100 <= v <= 0x17F
            ||| 0x900 <= v <= 0x97F
            ||| v == 0xFFFF_FFFF
        }),
{
}

/// A base code with the format-one bit set and bit 6 clear is a format-one
/// base.
proof fn lemma_rc_fmt1_base(b: TpmRcBase)
    requires
        (b.spec_value() & 0xC0) == 0x80,
    ensures
        0x80 <= b.spec_value() <= 0xBF,
{
    lemma_rc_base_ranges(b);
    let v = b.spec_value();
    assert(((v & 0xC0) == 0x80 && (v <= 0xBF || (0x100 <= v && v <= 0x17F) || (0x900 <= v && v
        <= 0x97F) || v == 0xFFFF_FFFF)) ==> (0x80 <= v && v <= 0xBF)) by (bit_vector);
}

/// Decoding the encoding of a response code gives it back, for every code
/// whose base belongs to its variant (format zero: bits 7 and 11 clear;
/// warning: bits 8 and 11 set, bit 7 clear; format one: bit 7 set, bit 6
/// clear), whose index is in range (a parameter from 1 to 15, a handle from 1
/// to 7, a session from 0 to 7), and whose encoding, unless it is a warning,
/// does not set both warning bits.
pub proof fn lemma_rc_value_roundtrip(rc: TpmRc)
    requires
        match rc {
            TpmRc::Fmt0(b) => (b.spec_value() & 0x880) == 0,
            TpmRc::Warn(b) => (b.spec_value() & 0x980) == 0x900,
            TpmRc::Fmt1(f) => (f.base.spec_value() & 0xC0) == 0x80 && match f.index {
                None => true,
                Some(TpmRcIndex::Parameter(n)) => 1 <= n <= 15,
                Some(TpmRcIndex::Handle(n)) => 1 <= n <= 7,
                Some(TpmRcIndex::Session(n)) => n <= 7,
            },
        },
        rc is Warn || (rc.spec_value() & 0x900) != 0x900,
    ensures
        rc.value_defined(),
        spec_rc_from_u32(rc.spec_value()) == Ok::<TpmRc, TpmError>(rc),
{
    match rc {
        TpmRc::Fmt0(b) => {
            let v = b.spec_value();
            assert((v & 0x880) == 0 ==> (v & 0x80) == 0 && (v & 0x900) != 0x900) by (bit_vector);
        },
        TpmRc::Warn(b) => {
            let v = b.spec_value();
            assert((v & 0x980) == 0x900 ==> (v & 0x80) == 0 && (v & 0x900) == 0x900) by (bit_vector);
        },
        TpmRc::Fmt1(f) => {
            lemma_rc_fmt1_base(f.base);
            let b = f.base.spec_value();
            match f.index {
                None => {},
                Some(TpmRcIndex::Parameter(n)) => {
                    let m = n as u32;
                    assert(rc.spec_value() == b | (TPM_RC_P_BIT | (m << TPM_RC_N_SHIFT)));
                    assert((0x80 <= b && b <= 0xBF && m <= 15 && ((b | (0x40u32 | (m << 8u32)))
                        & 0x900) != 0x900) ==> (m & 9) != 9) by (bit_vector);
                    assert((n & 9) != 9) by (bit_vector)
                        requires
                            m == n as u32,
                            (m & 9) != 9,
                    ;
                },
                Some(TpmRcIndex::Handle(n)) => {},
                Some(TpmRcIndex::Session(n)) => {
                    let m = (n + SESSION_INDEX_OFFSET) as u32;
                    assert(rc.spec_value() == b | (m << TPM_RC_N_SHIFT));
                    assert((0x80 <= b && b <= 0xBF && 8 <= m && m <= 15 && ((b | (m << 8u32))
                        & 0x900) != 0x900) ==> (m & 1) == 0) by (bit_vector);
                    assert((n & 1) == 0) by (bit_vector)
                        requires
                            m == n as u32 + 8,
                            n <= 7,
                            (m & 1) == 0,
                    ;
                },
            }
        },
    }
    lemma_rc_decode_encode(rc);
}

/// Whether the base code of a response code survives encoding and decoding:
/// for every response code other than the unused marker whose encoding is
/// defined, it does exactly unless the code is a format-one code whose base
/// lies outside format one and whose index bits change the base's bits (then
/// the encoding decodes to another base, or to none).
pub proof fn lemma_rc_base_survives(rc: TpmRc)
    requires
        rc.spec_base() != TpmRcBase::NotUsed,
        rc.value_defined(),
    ensures
        (spec_rc_from_u32(rc.spec_value()) matches Ok(d) && d.spec_base() == rc.spec_base()) <==> (
        rc matches TpmRc::Fmt1(f) ==> ((f.base.spec_value() & 0x80) != 0 || (f.base.spec_value()
            | spec_index_bits(f.index)) == f.base.spec_value())),
{
    let base = rc.spec_base();
    let b = base.spec_value();
    lemma_rc_base_value_roundtrip(base);
    lemma_rc_base_ranges(base);
    let v = rc.spec_value();
    let bits: u32 = match rc {
        TpmRc::Fmt1(f) => spec_index_bits(f.index),
        _ => 0,
    };
    assert(v == b | bits) by {
        match rc {
            TpmRc::Fmt1(f) => {},
            _ => {
                assert(b | 0 == b) by (bit_vector);
            },
        }
    };
    assert(bits == 0 || (bits & 0xBF) == 0) by {
        match rc {
            TpmRc::Fmt1(f) => match f.index {
                None => {},
                Some(TpmRcIndex::Parameter(n)) => {
                    let m = n as u32;
                    assert(m <= 0xFF ==> ((0x40u32 | (m << 8u32)) & 0xBF) == 0) by (bit_vector);
                },
                Some(TpmRcIndex::Handle(n)) => {
                    let m = n as u32;
                    assert(m <= 0xFF ==> ((m << 8u32) & 0xBF) == 0) by (bit_vector);
                },
                Some(TpmRcIndex::Session(n)) => {
                    let m = (n + SESSION_INDEX_OFFSET) as u32;
                    assert(m <= 0xFF ==> ((m << 8u32) & 0xBF) == 0) by (bit_vector);
                },
            },
            _ => {},
        }
    };
    if (b & 0x80) != 0 {
        assert(((b & 0x80) != 0 && (b <= 0xBF || (0x100 <= b && b <= 0x17F) || (0x900 <= b && b
            <= 0x97F))) ==> 0x80 <= b && b <= 0xBF) by (bit_vector);
        assert((0x80 <= b && b <= 0xBF && (bits == 0 || (bits & 0xBF) == 0)) ==> ((b | bits) & 0x80)
            != 0 && (0x80 | ((b | bits) & 0x3F)) == b) by (bit_vector);
        assert(spec_rc_base_code(v) == b);
    } else {
        assert(((b & 0x80) == 0 && (bits == 0 || (bits & 0xBF) == 0)) ==> ((b | bits) & 0x80) == 0)
            by (bit_vector);
        assert(spec_rc_base_code(v) == v);
        if v == b {
            assert(spec_rc_base_code(v) == b);
        } else {
            assert(bits != 0 ==> rc is Fmt1);
            assert(rc is Fmt1) by {
                if bits == 0 {
                    assert((b | 0) == b) by (bit_vector);
                }
            };
            lemma_rc_base_from_value(v);
        }
    }
}

/// Any decoded response code encodes to a value that decodes to the same
/// response code.
pub proof fn lemma_rc_decode_normalizes(value: u32)
    ensures
        spec_rc_from_u32(value) matches Ok(rc) ==> rc.value_defined(),
{
}


impl TpmRcBase {
    /// The name of the response code, as `Display` writes it.
    pub open spec fn spec_name(self) -> Seq<char> {
        match self {
            TpmRcBase::Success => "TPM_RC_SUCCESS"@,
            TpmRcBase::BadTag => "TPM_RC_BAD_TAG"@,
            TpmRcBase::Initialize => "TPM_RC_INITIALIZE"@,
            TpmRcBase::Failure => "TPM_RC_FAILURE"@,
            TpmRcBase::Sequence => "TPM_RC_SEQUENCE"@,
            TpmRcBase::Private => "TPM_RC_PRIVATE"@,
            TpmRcBase::Hmac => "TPM_RC_HMAC"@,
            TpmRcBase::Disabled => "TPM_RC_DISABLED"@,
            TpmRcBase::Exclusive => "TPM_RC_EXCLUSIVE"@,
            TpmRcBase::AuthType => "TPM_RC_AUTH_TYPE"@,
            TpmRcBase::AuthMissing => "TPM_RC_AUTH_MISSING"@,
            TpmRcBase::Policy => "TPM_RC_POLICY"@,
            TpmRcBase::Pcr => "TPM_RC_PCR"@,
            TpmRcBase::PcrChanged => "TPM_RC_PCR_CHANGED"@,
            TpmRcBase::Upgrade => "TPM_RC_UPGRADE"@,
            TpmRcBase::TooManyContexts => "TPM_RC_TOO_MANY_CONTEXTS"@,
            TpmRcBase::AuthUnavailable => "TPM_RC_AUTH_UNAVAILABLE"@,
            TpmRcBase::Reboot => "TPM_RC_REBOOT"@,
            TpmRcBase::Unbalanced => "TPM_RC_UNBALANCED"@,
            TpmRcBase::CommandSize => "TPM_RC_COMMAND_SIZE"@,
            TpmRcBase::CommandCode => "TPM_RC_COMMAND_CODE"@,
            TpmRcBase::AuthSize => "TPM_RC_AUTHSIZE"@,
            TpmRcBase::AuthContext => "TPM_RC_AUTH_CONTEXT"@,
            TpmRcBase::NvRange => "TPM_RC_NV_RANGE"@,
            TpmRcBase::NvSize => "TPM_RC_NV_SIZE"@,
            TpmRcBase::NvLocked => "TPM_RC_NV_LOCKED"@,
            TpmRcBase::NvAuthorization => "TPM_RC_NV_AUTHORIZATION"@,
            TpmRcBase::NvUninitialized => "TPM_RC_NV_UNINITIALIZED"@,
            TpmRcBase::NvSpace => "TPM_RC_NV_SPACE"@,
            TpmRcBase::NvDefined => "TPM_RC_NV_DEFINED"@,
            TpmRcBase::BadContext => "TPM_RC_BAD_CONTEXT"@,
            TpmRcBase::CpHash => "TPM_RC_CPHASH"@,
            TpmRcBase::Parent => "TPM_RC_PARENT"@,
            TpmRcBase::NeedsTest => "TPM_RC_NEEDS_TEST"@,
            TpmRcBase::NoResult => "TPM_RC_NO_RESULT"@,
            TpmRcBase::Sensitive => "TPM_RC_SENSITIVE"@,
            TpmRcBase::ReadOnly => "TPM_RC_READ_ONLY"@,
            TpmRcBase::Asymmetric => "TPM_RC_ASYMMETRIC"@,
            TpmRcBase::Attributes => "TPM_RC_ATTRIBUTES"@,
            TpmRcBase::Hash => "TPM_RC_HASH"@,
            TpmRcBase::Value => "TPM_RC_VALUE"@,
            TpmRcBase::Hierarchy => "TPM_RC_HIERARCHY"@,
            TpmRcBase::KeySize => "TPM_RC_KEY_SIZE"@,
            TpmRcBase::Mgf => "TPM_RC_MGF"@,
            TpmRcBase::Mode => "TPM_RC_MODE"@,
            TpmRcBase::Type => "TPM_RC_TYPE"@,
            TpmRcBase::Handle => "TPM_RC_HANDLE"@,
            TpmRcBase::Kdf => "TPM_RC_KDF"@,
            TpmRcBase::Range => "TPM_RC_RANGE"@,
            TpmRcBase::AuthFail => "TPM_RC_AUTH_FAIL"@,
            TpmRcBase::Nonce => "TPM_RC_NONCE"@,
            TpmRcBase::Pp => "TPM_RC_PP"@,
            TpmRcBase::Scheme => "TPM_RC_SCHEME"@,
            TpmRcBase::Size => "TPM_RC_SIZE"@,
            TpmRcBase::Symmetric => "TPM_RC_SYMMETRIC"@,
            TpmRcBase::Tag => "TPM_RC_TAG"@,
            TpmRcBase::Selector => "TPM_RC_SELECTOR"@,
            TpmRcBase::Insufficient => "TPM_RC_INSUFFICIENT"@,
            TpmRcBase::Signature => "TPM_RC_SIGNATURE"@,
            TpmRcBase::Key => "TPM_RC_KEY"@,
            TpmRcBase::PolicyFail => "TPM_RC_POLICY_FAIL"@,
            TpmRcBase::Integrity => "TPM_RC_INTEGRITY"@,
            TpmRcBase::Ticket => "TPM_RC_TICKET"@,
            TpmRcBase::ReservedBits => "TPM_RC_RESERVED_BITS"@,
            TpmRcBase::BadAuth => "TPM_RC_BAD_AUTH"@,
            TpmRcBase::Expired => "TPM_RC_EXPIRED"@,
            TpmRcBase::PolicyCc => "TPM_RC_POLICY_CC"@,
            TpmRcBase::Binding => "TPM_RC_BINDING"@,
            TpmRcBase::Curve => "TPM_RC_CURVE"@,
            TpmRcBase::EccPoint => "TPM_RC_ECC_POINT"@,
            TpmRcBase::FwLimited => "TPM_RC_FW_LIMITED"@,
            TpmRcBase::SvnLimited => "TPM_RC_SVN_LIMITED"@,
            TpmRcBase::Channel => "TPM_RC_CHANNEL"@,
            TpmRcBase::ChannelKey => "TPM_RC_CHANNEL_KEY"@,
            TpmRcBase::ContextGap => "TPM_RC_CONTEXT_GAP"@,
            TpmRcBase::ObjectMemory => "TPM_RC_OBJECT_MEMORY"@,
            TpmRcBase::SessionMemory => "TPM_RC_SESSION_MEMORY"@,
            TpmRcBase::Memory => "TPM_RC_MEMORY"@,
            TpmRcBase::SessionHandles => "TPM_RC_SESSION_HANDLES"@,
            TpmRcBase::ObjectHandles => "TPM_RC_OBJECT_HANDLES"@,
            TpmRcBase::Locality => "TPM_RC_LOCALITY"@,
            TpmRcBase::Yielded => "TPM_RC_YIELDED"@,
            TpmRcBase::Canceled => "TPM_RC_CANCELED"@,
            TpmRcBase::Testing => "TPM_RC_TESTING"@,
            TpmRcBase::ReferenceH0 => "TPM_RC_REFERENCE_H0"@,
            TpmRcBase::ReferenceH1 => "TPM_RC_REFERENCE_H1"@,
            TpmRcBase::ReferenceH2 => "TPM_RC_REFERENCE_H2"@,
            TpmRcBase::ReferenceH3 => "TPM_RC_REFERENCE_H3"@,
            TpmRcBase::ReferenceH4 => "TPM_RC_REFERENCE_H4"@,
            TpmRcBase::ReferenceH5 => "TPM_RC_REFERENCE_H5"@,
            TpmRcBase::ReferenceH6 => "TPM_RC_REFERENCE_H6"@,
            TpmRcBase::ReferenceS0 => "TPM_RC_REFERENCE_S0"@,
            TpmRcBase::ReferenceS1 => "TPM_RC_REFERENCE_S1"@,
            TpmRcBase::ReferenceS2 => "TPM_RC_REFERENCE_S2"@,
            TpmRcBase::ReferenceS3 => "TPM_RC_REFERENCE_S3"@,
            TpmRcBase::ReferenceS4 => "TPM_RC_REFERENCE_S4"@,
            TpmRcBase::ReferenceS5 => "TPM_RC_REFERENCE_S5"@,
            TpmRcBase::ReferenceS6 => "TPM_RC_REFERENCE_S6"@,
            TpmRcBase::NvRate => "TPM_RC_NV_RATE"@,
            TpmRcBase::Lockout => "TPM_RC_LOCKOUT"@,
            TpmRcBase::Retry => "TPM_RC_RETRY"@,
            TpmRcBase::NvUnavailable => "TPM_RC_NV_UNAVAILABLE"@,
            TpmRcBase::NotUsed => "TPM_RC_NOT_USED"@,
        }
    }

    /// Returns the name of the response code.
    pub fn name(self) -> (r: &'static str)
        ensures
            r@ == self.spec_name(),
    {
        match self {
            TpmRcBase::Success => "TPM_RC_SUCCESS",
            TpmRcBase::BadTag => "TPM_RC_BAD_TAG",
            TpmRcBase::Initialize => "TPM_RC_INITIALIZE",
            TpmRcBase::Failure => "TPM_RC_FAILURE",
            TpmRcBase::Sequence => "TPM_RC_SEQUENCE",
            TpmRcBase::Private => "TPM_RC_PRIVATE",
            TpmRcBase::Hmac => "TPM_RC_HMAC",
            TpmRcBase::Disabled => "TPM_RC_DISABLED",
            TpmRcBase::Exclusive => "TPM_RC_EXCLUSIVE",
            TpmRcBase::AuthType => "TPM_RC_AUTH_TYPE",
            TpmRcBase::AuthMissing => "TPM_RC_AUTH_MISSING",
            TpmRcBase::Policy => "TPM_RC_POLICY",
            TpmRcBase::Pcr => "TPM_RC_PCR",
            TpmRcBase::PcrChanged => "TPM_RC_PCR_CHANGED",
            TpmRcBase::Upgrade => "TPM_RC_UPGRADE",
            TpmRcBase::TooManyContexts => "TPM_RC_TOO_MANY_CONTEXTS",
            TpmRcBase::AuthUnavailable => "TPM_RC_AUTH_UNAVAILABLE",
            TpmRcBase::Reboot => "TPM_RC_REBOOT",
            TpmRcBase::Unbalanced => "TPM_RC_UNBALANCED",
            TpmRcBase::CommandSize => "TPM_RC_COMMAND_SIZE",
            TpmRcBase::CommandCode => "TPM_RC_COMMAND_CODE",
            TpmRcBase::AuthSize => "TPM_RC_AUTHSIZE",
            TpmRcBase::AuthContext => "TPM_RC_AUTH_CONTEXT",
            TpmRcBase::NvRange => "TPM_RC_NV_RANGE",
            TpmRcBase::NvSize => "TPM_RC_NV_SIZE",
            TpmRcBase::NvLocked => "TPM_RC_NV_LOCKED",
            TpmRcBase::NvAuthorization => "TPM_RC_NV_AUTHORIZATION",
            TpmRcBase::NvUninitialized => "TPM_RC_NV_UNINITIALIZED",
            TpmRcBase::NvSpace => "TPM_RC_NV_SPACE",
            TpmRcBase::NvDefined => "TPM_RC_NV_DEFINED",
            TpmRcBase::BadContext => "TPM_RC_BAD_CONTEXT",
            TpmRcBase::CpHash => "TPM_RC_CPHASH",
            TpmRcBase::Parent => "TPM_RC_PARENT",
            TpmRcBase::NeedsTest => "TPM_RC_NEEDS_TEST",
            TpmRcBase::NoResult => "TPM_RC_NO_RESULT",
            TpmRcBase::Sensitive => "TPM_RC_SENSITIVE",
            TpmRcBase::ReadOnly => "TPM_RC_READ_ONLY",
            TpmRcBase::Asymmetric => "TPM_RC_ASYMMETRIC",
            TpmRcBase::Attributes => "TPM_RC_ATTRIBUTES",
            TpmRcBase::Hash => "TPM_RC_HASH",
            TpmRcBase::Value => "TPM_RC_VALUE",
            TpmRcBase::Hierarchy => "TPM_RC_HIERARCHY",
            TpmRcBase::KeySize => "TPM_RC_KEY_SIZE",
            TpmRcBase::Mgf => "TPM_RC_MGF",
            TpmRcBase::Mode => "TPM_RC_MODE",
            TpmRcBase::Type => "TPM_RC_TYPE",
            TpmRcBase::Handle => "TPM_RC_HANDLE",
            TpmRcBase::Kdf => "TPM_RC_KDF",
            TpmRcBase::Range => "TPM_RC_RANGE",
            TpmRcBase::AuthFail => "TPM_RC_AUTH_FAIL",
            TpmRcBase::Nonce => "TPM_RC_NONCE",
            TpmRcBase::Pp => "TPM_RC_PP",
            TpmRcBase::Scheme => "TPM_RC_SCHEME",
            TpmRcBase::Size => "TPM_RC_SIZE",
            TpmRcBase::Symmetric => "TPM_RC_SYMMETRIC",
            TpmRcBase::Tag => "TPM_RC_TAG",
            TpmRcBase::Selector => "TPM_RC_SELECTOR",
            TpmRcBase::Insufficient => "TPM_RC_INSUFFICIENT",
            TpmRcBase::Signature => "TPM_RC_SIGNATURE",
            TpmRcBase::Key => "TPM_RC_KEY",
            TpmRcBase::PolicyFail => "TPM_RC_POLICY_FAIL",
            TpmRcBase::Integrity => "TPM_RC_INTEGRITY",
            TpmRcBase::Ticket => "TPM_RC_TICKET",
            TpmRcBase::ReservedBits => "TPM_RC_RESERVED_BITS",
            TpmRcBase::BadAuth => "TPM_RC_BAD_AUTH",
            TpmRcBase::Expired => "TPM_RC_EXPIRED",
            TpmRcBase::PolicyCc => "TPM_RC_POLICY_CC",
            TpmRcBase::Binding => "TPM_RC_BINDING",
            TpmRcBase::Curve => "TPM_RC_CURVE",
            TpmRcBase::EccPoint => "TPM_RC_ECC_POINT",
            TpmRcBase::FwLimited => "TPM_RC_FW_LIMITED",
            TpmRcBase::SvnLimited => "TPM_RC_SVN_LIMITED",
            TpmRcBase::Channel => "TPM_RC_CHANNEL",
            TpmRcBase::ChannelKey => "TPM_RC_CHANNEL_KEY",
            TpmRcBase::ContextGap => "TPM_RC_CONTEXT_GAP",
            TpmRcBase::ObjectMemory => "TPM_RC_OBJECT_MEMORY",
            TpmRcBase::SessionMemory => "TPM_RC_SESSION_MEMORY",
            TpmRcBase::Memory => "TPM_RC_MEMORY",
            TpmRcBase::SessionHandles => "TPM_RC_SESSION_HANDLES",
            TpmRcBase::ObjectHandles => "TPM_RC_OBJECT_HANDLES",
            TpmRcBase::Locality => "TPM_RC_LOCALITY",
            TpmRcBase::Yielded => "TPM_RC_YIELDED",
            TpmRcBase::Canceled => "TPM_RC_CANCELED",
            TpmRcBase::Testing => "TPM_RC_TESTING",
            TpmRcBase::ReferenceH0 => "TPM_RC_REFERENCE_H0",
            TpmRcBase::ReferenceH1 => "TPM_RC_REFERENCE_H1",
            TpmRcBase::ReferenceH2 => "TPM_RC_REFERENCE_H2",
            TpmRcBase::ReferenceH3 => "TPM_RC_REFERENCE_H3",
            TpmRcBase::ReferenceH4 => "TPM_RC_REFERENCE_H4",
            TpmRcBase::ReferenceH5 => "TPM_RC_REFERENCE_H5",
            TpmRcBase::ReferenceH6 => "TPM_RC_REFERENCE_H6",
            TpmRcBase::ReferenceS0 => "TPM_RC_REFERENCE_S0",
            TpmRcBase::ReferenceS1 => "TPM_RC_REFERENCE_S1",
            TpmRcBase::ReferenceS2 => "TPM_RC_REFERENCE_S2",
            TpmRcBase::ReferenceS3 => "TPM_RC_REFERENCE_S3",
            TpmRcBase::ReferenceS4 => "TPM_RC_REFERENCE_S4",
            TpmRcBase::ReferenceS5 => "TPM_RC_REFERENCE_S5",
            TpmRcBase::ReferenceS6 => "TPM_RC_REFERENCE_S6",
            TpmRcBase::NvRate => "TPM_RC_NV_RATE",
            TpmRcBase::Lockout => "TPM_RC_LOCKOUT",
            TpmRcBase::Retry => "TPM_RC_RETRY",
            TpmRcBase::NvUnavailable => "TPM_RC_NV_UNAVAILABLE",
            TpmRcBase::NotUsed => "TPM_RC_NOT_USED",
        }
    }
}

impl TpmRcIndex {
    /// How the index is written: its kind and its number.
    pub open spec fn spec_text(self) -> Seq<char> {
        match self {
            TpmRcIndex::Parameter(i) => "parameter["@ + spec_decimal(i as nat) + "]"@,
            TpmRcIndex::Handle(i) => "handle["@ + spec_decimal(i as nat) + "]"@,
            TpmRcIndex::Session(i) => "session["@ + spec_decimal(i as nat) + "]"@,
        }
    }

    /// Returns how the index is written.
    pub fn to_string(&self) -> (r: String)
        ensures
            r@ == self.spec_text(),
    {
        let (mut out, i) = match self {
            TpmRcIndex::Parameter(i) => (String::from_str("parameter["), *i),
            TpmRcIndex::Handle(i) => (String::from_str("handle["), *i),
            TpmRcIndex::Session(i) => (String::from_str("session["), *i),
        };
        let digits = decimal_string(i as u64);
        append_str(&mut out, digits.as_str());
        append_str(&mut out, "]");
        out
    }
}

impl TpmRc {
    /// How the response code is written: its base's name, and for a
    /// format-one code with an index, the name and the index in brackets.
    pub open spec fn spec_text(self) -> Seq<char> {
        match self {
            TpmRc::Fmt0(base) | TpmRc::Warn(base) => base.spec_name(),
            TpmRc::Fmt1(fmt1) => match fmt1.index {
                Some(index) => "["@ + fmt1.base.spec_name() + ", "@ + index.spec_text() + "]"@,
                None => fmt1.base.spec_name(),
            },
        }
    }

    /// Returns how the response code is written.
    pub fn to_string(&self) -> (r: String)
        ensures
            r@ == self.spec_text(),
    {
        match self {
            TpmRc::Fmt0(base) | TpmRc::Warn(base) => String::from_str(base.name()),
            TpmRc::Fmt1(fmt1) => match fmt1.index {
                Some(index) => {
                    let mut out = String::from_str("[");
                    append_str(&mut out, fmt1.base.name());
                    append_str(&mut out, ", ");
                    let shown = index.to_string();
                    append_str(&mut out, shown.as_str());
                    append_str(&mut out, "]");
                    out
                },
                None => String::from_str(fmt1.base.name()),
            },
        }
    }
}

} // verus!
