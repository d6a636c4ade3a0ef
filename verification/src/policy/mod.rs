//! The policy language: its tokens, its errors and the software policy
//! session.

pub mod software;
pub mod token;
pub mod command_list;

use crate::data::alg::TpmAlgId;
use crate::error::TpmError;
use crate::hash::TpmCryptoError;
use vstd::prelude::*;

verus! {

/// Why a policy could not be built or run.
#[derive(Debug, Clone, PartialEq, Eq)]
pub enum PolicyError {
    /// A value does not fit the buffer that holds it.
    CapacityExceeded,
    /// A digest could not be computed.
    Crypto(TpmCryptoError),
    /// The algorithm is no hash of fixed size.
    InvalidAlgorithm(TpmAlgId),
    /// The expression is not well formed.
    InvalidExpression(String),
    /// The secret is not well formed.
    InvalidSecret(String),
    /// A value is not well formed.
    InvalidValue(String),
    /// No branch of an OR policy can be satisfied.
    NoValidPolicyOrBranch,
    /// A PCR index is beyond the selectable PCRs.
    PcrIndexTooLarge(usize),
    /// No PCR value was given for a selection.
    PcrValueMissing(String),
    /// A TPM structure could not be built.
    Protocol(TpmError),
}

} // verus!
pub mod expr;
pub mod execute;
