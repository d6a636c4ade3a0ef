//! The steps of turning a policy expression into a list of policy commands:
//! each adds its command and applies it to a software policy session.

use crate::constant::{MAX_DIGEST_SIZE, MAX_PCR_SELECTIONS, TPM_PCR_SELECT_MAX};
use crate::data::attr::TpmaSession;
use crate::data::cc::TpmCc;
use crate::data::ht::{spec_tpm_ht_from_u8, TpmHt};
use crate::frame::auth::{auth_command_views, AuthCommandView, TpmsAuthCommand};
use crate::data::attest::push_selections;
use crate::data::pcr::{selections_view, PcrSelectionView, TpmsPcrSelection};
use crate::frame::codec::{push_u32, spec_be32_bytes};
use crate::handle::Handle;
use crate::policy::software::{
    spec_pcr_selection_list_bytes, spec_policy_update, SoftwarePolicySession,
};
use crate::policy::PolicyError;
use vstd::prelude::*;
use vstd::slice::slice_to_vec;

verus! {

/// The owner hierarchy.
pub const TPM_RH_OWNER: u32 = 0x4000_0001;
/// The password authorization session.
pub const TPM_RS_PW: u32 = 0x4000_0009;
/// The lockout authority.
pub const TPM_RH_LOCKOUT: u32 = 0x4000_000A;
/// The endorsement hierarchy.
pub const TPM_RH_ENDORSEMENT: u32 = 0x4000_000B;
/// The platform hierarchy.
pub const TPM_RH_PLATFORM: u32 = 0x4000_000C;

/// A policy command of a command list, with the parts that vary: a
/// `TPM2_PolicyRestart`; a `TPM2_PolicyPCR` with its PCR digest and
/// selections; a `TPM2_PolicySecret` with its authorizing handle (its nonce,
/// command parameter hash and policy reference are empty, its expiration 0);
/// a `TPM2_PolicyOR` with its branch digests; or another command.
#[derive(Debug, Clone, PartialEq, Eq)]
pub enum PolicyCommand {
    Restart,
    Pcr { pcr_digest: Vec<u8>, pcrs: Vec<TpmsPcrSelection> },
    Secret { auth_handle: u32 },
    Or { p_hash_list: Vec<Vec<u8>> },
    Other(TpmCc),
}

/// What a command of the list, with its authorizations, says about the
/// expression it stands for: a restart; a PCR digest and selections; an
/// authorizing handle and the HMAC of the first password session, if any;
/// the number of branches of an OR; or another command's code.
pub enum ShapeItem {
    Restart,
    Pcr { pcr_digest: Seq<u8>, pcrs: Seq<PcrSelectionView> },
    Secret { auth_handle: u32, password: Option<Seq<u8>> },
    Or(nat),
    Other(TpmCc),
}

/// The HMAC of the first password session of a list of authorizations.
pub open spec fn spec_password_hmac(auths: Seq<AuthCommandView>) -> Option<Seq<u8>>
    decreases auths.len(),
{
    if auths.len() == 0 {
        None
    } else if auths[0].session_handle == TPM_RS_PW {
        Some(auths[0].hmac)
    } else {
        spec_password_hmac(auths.drop_first())
    }
}

/// What a command and its authorizations say.
pub open spec fn spec_shape(c: PolicyCommand, auths: Seq<TpmsAuthCommand>) -> ShapeItem {
    match c {
        PolicyCommand::Restart => ShapeItem::Restart,
        PolicyCommand::Pcr { pcr_digest, pcrs } => ShapeItem::Pcr {
            pcr_digest: pcr_digest@,
            pcrs: selections_view(pcrs@),
        },
        PolicyCommand::Secret { auth_handle } => ShapeItem::Secret {
            auth_handle,
            password: spec_password_hmac(auth_command_views(auths)),
        },
        PolicyCommand::Or { p_hash_list } => ShapeItem::Or(p_hash_list@.len()),
        PolicyCommand::Other(cc) => ShapeItem::Other(cc),
    }
}

/// What each command of a list says.
pub open spec fn spec_shapes(list: Seq<(PolicyCommand, Vec<TpmsAuthCommand>)>) -> Seq<ShapeItem> {
    Seq::new(list.len(), |i: int| spec_shape(list[i].0, list[i].1@))
}

/// Appending a command appends what it says.
pub proof fn lemma_shapes_push(list: Seq<(PolicyCommand, Vec<TpmsAuthCommand>)>, c: (PolicyCommand, Vec<TpmsAuthCommand>))
    ensures
        spec_shapes(list.push(c)) == spec_shapes(list).push(spec_shape(c.0, c.1@)),
{
    assert(spec_shapes(list.push(c)) =~= spec_shapes(list).push(spec_shape(c.0, c.1@)));
}

/// Returns a copy of a list of PCR selections.
pub fn copy_selections(v: &Vec<TpmsPcrSelection>) -> (r: Vec<TpmsPcrSelection>)
    ensures
        selections_view(r@) == selections_view(v@),
        r@.len() == v@.len(),
        forall|i: int| 0 <= i < v@.len() ==> (#[trigger] r@[i])@ == v@[i]@,
{
    let mut r: Vec<TpmsPcrSelection> = Vec::new();
    let mut i: usize = 0;
    while i < v.len()
        invariant
            i <= v@.len(),
            r@.len() == i,
            forall|j: int| 0 <= j < i ==> (#[trigger] r@[j])@ == v@[j]@,
        decreases v@.len() - i,
    {
        r.push(TpmsPcrSelection { hash: v[i].hash, pcr_select: v[i].pcr_select.copy() });
        i = i + 1;
    }
    assert(selections_view(r@) =~= selections_view(v@));
    r
}

/// Why a policy command could not be built.
#[derive(Debug, Clone, PartialEq, Eq)]
pub enum PolicyCommandError {
    /// The handle is a pattern, not a single handle.
    PatternDenied,
    /// The type byte of the handle names no handle that can authorize a
    /// secret.
    InvalidType(u8),
    /// No name is known for the persistent handle.
    InvalidExpression,
    /// The password does not fit an authorization value.
    OperationFailed,
    /// A PCR policy carries no PCR digest.
    PcrDigestMissing,
    /// The PCR digest is not of the session's digest size.
    InvalidPcrDigest,
    /// A command of the list is no policy command of the language.
    InvalidCc(TpmCc),
    /// An OR has more branches than a digest list holds.
    TooManyBranches,
    /// The policy session failed.
    Policy(PolicyError),
}

/// The name recorded for `handle` in `names`: the first entry for it.
pub open spec fn spec_lookup_name(names: Seq<(u32, Vec<u8>)>, handle: u32) -> Option<Seq<u8>>
    decreases names.len(),
{
    if names.len() == 0 {
        None
    } else if names[0].0 == handle {
        Some(names[0].1@)
    } else {
        spec_lookup_name(names.drop_first(), handle)
    }
}

/// The name of the object that authorizes a secret through `handle`: a
/// persistent handle's recorded name, or the big-endian handle of the
/// owner, endorsement, platform or lockout hierarchy. Any other handle is
/// `InvalidType` with its type byte; a persistent handle without a name is
/// `InvalidExpression`.
pub open spec fn spec_secret_name(names: Seq<(u32, Vec<u8>)>, handle: u32) -> Result<
    Seq<u8>,
    PolicyCommandError,
> {
    let ht = (handle >> 24) as u8;
    match spec_tpm_ht_from_u8(ht) {
        Some(TpmHt::Persistent) => match spec_lookup_name(names, handle) {
            Some(name) => Ok(name),
            None => Err(PolicyCommandError::InvalidExpression),
        },
        Some(TpmHt::Permanent) => if handle == TPM_RH_OWNER || handle == TPM_RH_ENDORSEMENT
            || handle == TPM_RH_PLATFORM || handle == TPM_RH_LOCKOUT {
            Ok(spec_be32_bytes(handle))
        } else {
            Err(PolicyCommandError::InvalidType(ht))
        },
        _ => Err(PolicyCommandError::InvalidType(ht)),
    }
}

pub(crate) fn lookup_name(names: &Vec<(u32, Vec<u8>)>, handle: u32) -> (r: Option<Vec<u8>>)
    ensures
        r matches Some(n) ==> spec_lookup_name(names@, handle) == Some(n@),
        r is None ==> spec_lookup_name(names@, handle) is None,
{
    let mut i: usize = 0;
    assert(names@.skip(0) =~= names@);
    while i < names.len()
        invariant
            i <= names@.len(),
            spec_lookup_name(names@, handle) == spec_lookup_name(names@.skip(i as int), handle),
        decreases names@.len() - i,
    {
        assert(names@.skip(i as int).drop_first() =~= names@.skip(i + 1));
        assert(names@.skip(i as int)[0] == names@[i as int]);
        if names[i].0 == handle {
            return Some(names[i].1.clone());
        }
        i = i + 1;
    }
    None
}

/// Returns the name of the object that authorizes a secret through `handle`.
pub fn secret_name(names: &Vec<(u32, Vec<u8>)>, handle: u32) -> (r: Result<
    Vec<u8>,
    PolicyCommandError,
>)
    ensures
        match spec_secret_name(names@, handle) {
            Ok(n) => r matches Ok(v) && v@ == n,
            Err(e) => r == Err::<Vec<u8>, PolicyCommandError>(e),
        },
{
    let ht: u8 = (handle >> 24) as u8;
    match TpmHt::from_u8(ht) {
        Some(TpmHt::Persistent) => match lookup_name(names, handle) {
            Some(name) => Ok(name),
            None => Err(PolicyCommandError::InvalidExpression),
        },
        Some(TpmHt::Permanent) => {
            if handle == TPM_RH_OWNER || handle == TPM_RH_ENDORSEMENT || handle == TPM_RH_PLATFORM
                || handle == TPM_RH_LOCKOUT {
                let mut name: Vec<u8> = Vec::new();
                push_u32(&mut name, handle);
                assert(name@ =~= spec_be32_bytes(handle));
                Ok(name)
            } else {
                Err(PolicyCommandError::InvalidType(ht))
            }
        },
        _ => Err(PolicyCommandError::InvalidType(ht)),
    }
}

/// The password session of the command: the password as its HMAC, no nonce
/// and no attributes.
pub open spec fn spec_password_session(a: TpmsAuthCommand, password: Seq<u8>) -> bool {
    &&& a.session_handle == TPM_RS_PW
    &&& a.nonce@.len() == 0
    &&& a.session_attributes == TpmaSession(0)
    &&& a.hmac@ == password
}

/// Adds the `TPM2_PolicySecret` command that `secret(handle, password)`
/// stands for to `command_list`, applies it to `session`, and returns the
/// new policy digest.
///
/// A handle pattern is `PatternDenied`; the authorizing object's name is
/// that of `spec_secret_name` (its errors come back unchanged); a password
/// longer than a digest is `OperationFailed`. Each of these leaves the list
/// and the session as they were. Otherwise the command, with its password
/// session, is appended, and the session is updated as `policy_secret`
/// does; a failure there is a `Policy` error.
pub fn to_command_list_walk_secret(
    auth_handle: &Handle,
    password: &[u8],
    names: &Vec<(u32, Vec<u8>)>,
    command_list: &mut Vec<(PolicyCommand, Vec<TpmsAuthCommand>)>,
    session: &mut SoftwarePolicySession,
) -> (r: Result<Vec<u8>, PolicyCommandError>)
    ensures
        final(session)@.digest_size == old(session)@.digest_size,
        final(session)@.hash_alg == old(session)@.hash_alg,
        auth_handle.mask_bits() != 0xFFFF_FFFF ==> r == Err::<Vec<u8>, PolicyCommandError>(
            PolicyCommandError::PatternDenied,
        ),
        auth_handle.mask_bits() == 0xFFFF_FFFF ==> match spec_secret_name(
            names@,
            auth_handle.value_bits(),
        ) {
            Err(e) => r == Err::<Vec<u8>, PolicyCommandError>(e),
            Ok(name) => {
                &&& password@.len() > MAX_DIGEST_SIZE ==> r == Err::<Vec<u8>, PolicyCommandError>(
                    PolicyCommandError::OperationFailed,
                )
                &&& password@.len() <= MAX_DIGEST_SIZE ==> {
                    &&& final(command_list)@.len() == old(command_list)@.len() + 1
                    &&& final(command_list)@.take(old(command_list)@.len() as int) == old(command_list)@
                    &&& final(command_list)@.last().0 matches PolicyCommand::Secret { auth_handle: h }
                        && h == auth_handle.value_bits()
                    &&& spec_shape(final(command_list)@.last().0, final(command_list)@.last().1@)
                        == (ShapeItem::Secret { auth_handle: auth_handle.value_bits(), password: Some(password@) })
                    &&& final(command_list)@.last().1@.len() == 1
                    &&& spec_password_session(final(command_list)@.last().1@[0], password@)
                    &&& final(session)@.hash_alg == old(session)@.hash_alg
                    &&& r matches Ok(d) ==> {
                        &&& d@ == final(session)@.digest
                        &&& final(session)@.digest == old(session).spec_hash().spec_digest(
                            spec_policy_update(
                                old(session).spec_hash(),
                                old(session)@.digest,
                                TpmCc::PolicySecret,
                                name,
                            ),
                        )
                    }
                    &&& r matches Err(e) ==> (e matches PolicyCommandError::Policy(pe) && (pe is Crypto || pe is Protocol))
                        && final(session)@ == old(session)@
                }
            },
        },
        r matches Err(e) ==> !(e is Policy) ==> final(command_list)@ == old(command_list)@
            && final(session)@ == old(session)@,
{
    let h = match auth_handle.value() {
        Some(h) => h,
        None => {
            return Err(PolicyCommandError::PatternDenied);
        },
    };
    let name = secret_name(names, h)?;
    if password.len() > MAX_DIGEST_SIZE {
        return Err(PolicyCommandError::OperationFailed);
    }
    let cmd = PolicyCommand::Secret { auth_handle: h };
    let auth = TpmsAuthCommand {
        session_handle: TPM_RS_PW,
        nonce: Vec::new(),
        session_attributes: TpmaSession(0),
        hmac: slice_to_vec(password),
    };
    let mut auths: Vec<TpmsAuthCommand> = Vec::new();
    auths.push(auth);
    command_list.push((cmd, auths));
    assert(command_list@.take(old(command_list)@.len() as int) =~= old(command_list)@);
    assert(auth_command_views(command_list@.last().1@) =~= seq![command_list@.last().1@[0]@]);
    assert(spec_password_hmac(seq![command_list@.last().1@[0]@]) == Some(password@)) by {
        reveal_with_fuel(spec_password_hmac, 2);
    }
    assert(command_list@.last().1@.len() == 1);
    assert(spec_password_session(command_list@.last().1@[0], password@));
    let ghost before = session@;
    match session.policy_secret(h, name.as_slice(), Some(password), None) {
        Ok(()) => {},
        Err(e) => {
            assert(session@ == before);
            return Err(PolicyCommandError::Policy(e));
        },
    }
    match session.get_digest() {
        Ok(d) => Ok(d),
        Err(e) => Err(PolicyCommandError::Policy(e)),
    }
}

/// Adds the `TPM2_PolicyPCR` command that `pcr(selections, digest)` stands
/// for to `command_list`, applies it to `session`, and returns the new
/// policy digest.
///
/// A missing digest is `PcrDigestMissing`, and one whose length is not the
/// session's digest size `InvalidPcrDigest`; both leave the list and the
/// session as they were. Otherwise the command (the digest and the
/// selections; no authorizations) is appended, and the session is updated as
/// `policy_pcr` does; a failure there is a `Policy` error.
pub fn to_command_list_walk_pcr(
    selections: &Vec<TpmsPcrSelection>,
    digest: Option<&[u8]>,
    command_list: &mut Vec<(PolicyCommand, Vec<TpmsAuthCommand>)>,
    session: &mut SoftwarePolicySession,
) -> (r: Result<Vec<u8>, PolicyCommandError>)
    requires
        selections@.len() <= MAX_PCR_SELECTIONS,
        forall|i: int|
            0 <= i < selections@.len() ==> (#[trigger] selections@[i]).pcr_select@.len()
                <= TPM_PCR_SELECT_MAX,
    ensures
        final(session)@.digest_size == old(session)@.digest_size,
        final(session)@.hash_alg == old(session)@.hash_alg,
        digest is None ==> r == Err::<Vec<u8>, PolicyCommandError>(
            PolicyCommandError::PcrDigestMissing,
        ),
        digest matches Some(d) ==> {
            &&& d@.len() != old(session)@.digest_size ==> r == Err::<Vec<u8>, PolicyCommandError>(
                PolicyCommandError::InvalidPcrDigest,
            )
            &&& d@.len() == old(session)@.digest_size ==> {
                &&& final(command_list)@.len() == old(command_list)@.len() + 1
                &&& final(command_list)@.take(old(command_list)@.len() as int) == old(command_list)@
                &&& spec_shape(final(command_list)@.last().0, final(command_list)@.last().1@)
                    == (ShapeItem::Pcr { pcr_digest: d@, pcrs: selections_view(selections@) })
                &&& final(command_list)@.last().1@.len() == 0
                &&& final(session)@.hash_alg == old(session)@.hash_alg
                &&& r matches Ok(v) ==> {
                    &&& v@ == final(session)@.digest
                    &&& final(session)@.digest == spec_policy_update(
                        old(session).spec_hash(),
                        old(session)@.digest,
                        TpmCc::PolicyPcr,
                        spec_pcr_selection_list_bytes(selections@) + d@,
                    )
                }
                &&& r matches Err(e) ==> (e matches PolicyCommandError::Policy(pe) && (pe is Crypto || pe is Protocol))
                        && final(session)@ == old(session)@
            }
        },
        r matches Err(e) ==> !(e is Policy) ==> final(command_list)@ == old(command_list)@
            && final(session)@ == old(session)@,
{
    let d = match digest {
        Some(d) => d,
        None => {
            return Err(PolicyCommandError::PcrDigestMissing);
        },
    };
    if d.len() != session.digest_size() {
        return Err(PolicyCommandError::InvalidPcrDigest);
    }
    let cmd = PolicyCommand::Pcr { pcr_digest: slice_to_vec(d), pcrs: copy_selections(selections) };
    command_list.push((cmd, Vec::new()));
    assert(auth_command_views(command_list@.last().1@) =~= Seq::<AuthCommandView>::empty());
    assert(command_list@.take(old(command_list)@.len() as int) =~= old(command_list)@);
    let ghost before = session@;
    match session.policy_pcr(d, selections) {
        Ok(()) => {},
        Err(e) => {
            assert(session@ == before);
            return Err(PolicyCommandError::Policy(e));
        },
    }
    match session.get_digest() {
        Ok(v) => Ok(v),
        Err(e) => Err(PolicyCommandError::Policy(e)),
    }
}

} // verus!
