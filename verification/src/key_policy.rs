//! The policy of a TPM key file: policy commands as the key file's ASN.1
//! structure holds them.

use crate::data::cc::{lemma_cc_from_u32_value, lemma_cc_value_roundtrip, spec_cc_from_u32, TpmCc};
use vstd::prelude::*;
use vstd::slice::slice_to_vec;

verus! {

/// Why a key file's policy command is refused.
#[derive(Debug, Clone, Copy, PartialEq, Eq, Structural)]
pub enum TpmKeyError {
    /// The command code is not defined, or is no policy command.
    InvalidCc(u32),
}

/// A policy command as a key file's ASN.1 structure holds it: the command
/// code and the marshaled command body.
#[derive(Debug, Clone, PartialEq, Eq)]
pub struct TpmKeyCommandAsn1 {
    pub command_code: u32,
    pub command_policy: Vec<u8>,
}

/// A policy command of a key file: the command code and its marshaled body.
#[derive(Debug, Clone, PartialEq, Eq)]
pub struct TpmKeyPolicyCommand {
    cc: TpmCc,
    body: Vec<u8>,
}

/// A policy command, as plain values.
pub struct PolicyCommandView {
    pub cc: TpmCc,
    pub body: Seq<u8>,
}

impl View for TpmKeyPolicyCommand {
    type V = PolicyCommandView;

    closed spec fn view(&self) -> PolicyCommandView {
        PolicyCommandView { cc: self.cc, body: self.body@ }
    }
}

/// The command codes of the policy commands.
pub open spec fn spec_is_policy_cc(cc: TpmCc) -> bool {
    match cc {
        TpmCc::PolicyNv | TpmCc::PolicySecret | TpmCc::PolicySigned | TpmCc::PolicyAuthorize
        | TpmCc::PolicyAuthValue | TpmCc::PolicyCommandCode | TpmCc::PolicyCounterTimer
        | TpmCc::PolicyCpHash | TpmCc::PolicyLocality | TpmCc::PolicyNameHash | TpmCc::PolicyOR
        | TpmCc::PolicyTicket | TpmCc::PolicyPcr | TpmCc::PolicyRestart
        | TpmCc::PolicyPhysicalPresence | TpmCc::PolicyDuplicationSelect | TpmCc::PolicyGetDigest
        | TpmCc::PolicyPassword | TpmCc::PolicyNvWritten | TpmCc::PolicyTemplate
        | TpmCc::PolicyAuthorizeNv | TpmCc::PolicyAcSendSelect | TpmCc::PolicyCapability
        | TpmCc::PolicyParameters | TpmCc::PolicyTransportSpdm => true,
        _ => false,
    }
}

/// Returns whether a command code is that of a policy command.
pub fn is_policy_cc(cc: TpmCc) -> (r: bool)
    ensures
        r == spec_is_policy_cc(cc),
{
    match cc {
        TpmCc::PolicyNv | TpmCc::PolicySecret | TpmCc::PolicySigned | TpmCc::PolicyAuthorize
        | TpmCc::PolicyAuthValue | TpmCc::PolicyCommandCode | TpmCc::PolicyCounterTimer
        | TpmCc::PolicyCpHash | TpmCc::PolicyLocality | TpmCc::PolicyNameHash | TpmCc::PolicyOR
        | TpmCc::PolicyTicket | TpmCc::PolicyPcr | TpmCc::PolicyRestart
        | TpmCc::PolicyPhysicalPresence | TpmCc::PolicyDuplicationSelect | TpmCc::PolicyGetDigest
        | TpmCc::PolicyPassword | TpmCc::PolicyNvWritten | TpmCc::PolicyTemplate
        | TpmCc::PolicyAuthorizeNv | TpmCc::PolicyAcSendSelect | TpmCc::PolicyCapability
        | TpmCc::PolicyParameters | TpmCc::PolicyTransportSpdm => true,
        _ => false,
    }
}

/// The policy command that an ASN.1 policy command stands for: its code must
/// be a defined policy command code, else `InvalidCc` with the code.
pub open spec fn spec_policy_command_from_asn1(code: u32, body: Seq<u8>) -> Result<
    PolicyCommandView,
    TpmKeyError,
> {
    match spec_cc_from_u32(code) {
        Some(cc) => if spec_is_policy_cc(cc) {
            Ok(PolicyCommandView { cc, body })
        } else {
            Err(TpmKeyError::InvalidCc(code))
        },
        None => Err(TpmKeyError::InvalidCc(code)),
    }
}

impl TpmKeyPolicyCommand {
    /// Creates a policy command.
    pub fn new(cc: TpmCc, body: Vec<u8>) -> (r: Self)
        ensures
            r@ == (PolicyCommandView { cc, body: body@ }),
    {
        TpmKeyPolicyCommand { cc, body }
    }

    /// Returns the command code.
    pub fn cc(&self) -> (r: TpmCc)
        ensures
            r == self@.cc,
    {
        self.cc
    }

    /// Returns the marshaled command body.
    pub fn body(&self) -> (r: &Vec<u8>)
        ensures
            r@ == self@.body,
    {
        &self.body
    }

    /// Returns the policy command that an ASN.1 policy command stands for.
    pub fn try_from_asn1(val: &TpmKeyCommandAsn1) -> (r: Result<Self, TpmKeyError>)
        ensures
            match spec_policy_command_from_asn1(val.command_code, val.command_policy@) {
                Ok(v) => r matches Ok(c) && c@ == v,
                Err(e) => r == Err::<Self, TpmKeyError>(e),
            },
    {
        let cc = match TpmCc::from_u32(val.command_code) {
            Some(cc) => cc,
            None => {
                return Err(TpmKeyError::InvalidCc(val.command_code));
            },
        };
        if !is_policy_cc(cc) {
            return Err(TpmKeyError::InvalidCc(val.command_code));
        }
        Ok(TpmKeyPolicyCommand { cc, body: slice_to_vec(val.command_policy.as_slice()) })
    }
}

impl TpmKeyCommandAsn1 {
    /// Returns the ASN.1 policy command of a policy command: its command code
    /// as a number, and its body.
    pub fn from_command(c: &TpmKeyPolicyCommand) -> (r: Self)
        ensures
            r.command_code == c@.cc.spec_value(),
            r.command_policy@ == c@.body,
    {
        TpmKeyCommandAsn1 {
            command_code: c.cc.value(),
            command_policy: slice_to_vec(c.body.as_slice()),
        }
    }
}

/// A policy command of a policy command code survives the ASN.1 structure:
/// reading back what was written gives the same command.
pub proof fn lemma_policy_command_asn1_roundtrip(c: PolicyCommandView)
    requires
        spec_is_policy_cc(c.cc),
    ensures
        spec_policy_command_from_asn1(c.cc.spec_value(), c.body) == Ok::<
            PolicyCommandView,
            TpmKeyError,
        >(c),
{
    lemma_cc_value_roundtrip(c.cc);
}

/// An ASN.1 policy command that is read as a command is what that command
/// writes back.
pub proof fn lemma_asn1_policy_command_roundtrip(code: u32, body: Seq<u8>)
    ensures
        spec_policy_command_from_asn1(code, body) matches Ok(c) ==> c.cc.spec_value() == code
            && c.body == body,
{
    lemma_cc_from_u32_value(code);
}

/// The policy of a key: an optional name and its policy commands.
#[derive(Debug, Clone, PartialEq, Eq)]
pub struct TpmKeyAuthPolicy {
    name: Option<String>,
    policy: Vec<TpmKeyPolicyCommand>,
}

/// A key policy, as plain values.
pub struct KeyAuthPolicyView {
    pub name: Option<Seq<char>>,
    pub policy: Seq<PolicyCommandView>,
}

impl View for TpmKeyAuthPolicy {
    type V = KeyAuthPolicyView;

    closed spec fn view(&self) -> KeyAuthPolicyView {
        KeyAuthPolicyView {
            name: match self.name {
                Some(s) => Some(s@),
                None => None,
            },
            policy: self.policy@.map_values(|c: TpmKeyPolicyCommand| c@),
        }
    }
}

impl TpmKeyAuthPolicy {
    /// Creates a key policy.
    pub fn new(name: Option<String>, policy: Vec<TpmKeyPolicyCommand>) -> (r: Self)
        ensures
            r@.name == (match name {
                Some(s) => Some(s@),
                None => None::<Seq<char>>,
            }),
            r@.policy == policy@.map_values(|c: TpmKeyPolicyCommand| c@),
    {
        TpmKeyAuthPolicy { name, policy }
    }

    /// Creates an empty, unnamed key policy.
    pub fn empty() -> (r: Self)
        ensures
            r@.name is None,
            r@.policy.len() == 0,
    {
        TpmKeyAuthPolicy { name: None, policy: Vec::new() }
    }

    /// Returns the name of the policy.
    pub fn name(&self) -> (r: &Option<String>)
        ensures
            r matches Some(s) ==> self@.name == Some(s@),
            r is None ==> self@.name is None,
    {
        &self.name
    }

    /// Returns the policy commands.
    pub fn policy(&self) -> (r: &Vec<TpmKeyPolicyCommand>)
        ensures
            r@.map_values(|c: TpmKeyPolicyCommand| c@) == self@.policy,
    {
        &self.policy
    }

    /// Returns the number of policy commands.
    pub fn len(&self) -> (r: usize)
        ensures
            r == self@.policy.len(),
    {
        self.policy.len()
    }

    /// Returns whether the policy has no commands.
    pub fn is_empty(&self) -> (r: bool)
        ensures
            r == (self@.policy.len() == 0),
    {
        self.policy.len() == 0
    }
}

impl Default for TpmKeyAuthPolicy {
    fn default() -> (r: Self)
        ensures
            r@.name is None,
            r@.policy.len() == 0,
    {
        Self::empty()
    }
}

} // verus!
