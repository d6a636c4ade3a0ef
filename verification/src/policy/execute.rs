//! Running a policy expression on a software policy session.

use crate::constant::{MAX_DIGEST_SIZE, MAX_PCR_SELECTIONS, TPM_PCR_SELECT_MAX};
use crate::data::attest::spec_selections_bytes;
use crate::data::cc::TpmCc;
use crate::data::pcr::{selections_view, PcrSelectionView};
use crate::frame::codec::spec_be32_bytes;
use crate::hash::TpmHash;
use crate::policy::command_list::{lookup_name, spec_lookup_name};
use crate::policy::expr::{
    spec_expr_view,
    lemma_all_fit, lemma_and_or_view, spec_expr_fits, spec_exprs_view, ExprView, PolicyExpr,
    MAX_POLICY_OR_DIGESTS,
};
use crate::policy::software::{spec_policy_update, spec_zero_digest, SoftwarePolicySession};
use crate::policy::PolicyError;
use vstd::prelude::*;
use vstd::string::StringExecFns;

verus! {

/// Why running a policy stops, apart from the hash computations.
pub enum PolicyFault {
    /// The expression is not one a session can run.
    Expression,
    /// A secret's password is not a password expression.
    Secret,
    /// A PCR digest is longer than a digest.
    Capacity,
}

/// The fault that an error of `execute_policy` stands for.
pub open spec fn spec_fault_of(e: PolicyError) -> Option<PolicyFault> {
    match e {
        PolicyError::InvalidExpression(_) => Some(PolicyFault::Expression),
        PolicyError::InvalidSecret(_) => Some(PolicyFault::Secret),
        PolicyError::CapacityExceeded => Some(PolicyFault::Capacity),
        _ => None,
    }
}

/// The policy digest after a `TPM2_PolicySecret` with the name `name`.
pub open spec fn spec_secret_digest(h: TpmHash, d: Seq<u8>, name: Seq<u8>) -> Seq<u8> {
    h.spec_digest(spec_policy_update(h, d, TpmCc::PolicySecret, name))
}

/// The digests of branches, one after another.
pub open spec fn spec_concat(list: Seq<Seq<u8>>) -> Seq<u8> {
    list.flatten()
}

/// The policy digest that running `e` gives, from the digest `d` of a
/// session of hash `h` and digest size `size`; `names` gives the names of
/// persistent handles.
///
/// A password or a handle is no policy. A PCR policy needs its digest (at
/// most a digest long) and extends the digest with the selections and it. A
/// secret needs a single persistent handle with a known name, and a
/// password expression if it has a password; it extends the digest with the
/// name. A conjunction needs parts and runs them one after another. A
/// disjunction runs each branch from a restarted digest, at most
/// `MAX_POLICY_OR_DIGESTS` of them, and extends a restarted digest with the
/// branch digests.
pub open spec fn spec_execute(
    e: ExprView,
    d: Seq<u8>,
    h: TpmHash,
    size: nat,
    names: Seq<(u32, Vec<u8>)>,
) -> Result<Seq<u8>, PolicyFault>
    decreases e, 0nat,
{
    match e {
        ExprView::Pcr { selections, digest } => match digest {
            None => Err(PolicyFault::Expression),
            Some(x) => if x.len() > MAX_DIGEST_SIZE {
                Err(PolicyFault::Capacity)
            } else {
                Ok(
                    spec_policy_update(
                        h,
                        d,
                        TpmCc::PolicyPcr,
                        spec_be32_bytes(selections.len() as u32) + spec_selections_bytes(selections) + x,
                    ),
                )
            },
        },
        ExprView::Secret { auth_handle, password } => match *auth_handle {
            ExprView::Handle { mask, value } => if mask != 0xFFFF_FFFF || (value >> 24) != 0x81 {
                Err(PolicyFault::Expression)
            } else {
                match spec_lookup_name(names, value) {
                    None => Err(PolicyFault::Expression),
                    Some(name) => match password {
                        Some(p) => if *p is Password {
                            Ok(spec_secret_digest(h, d, name))
                        } else {
                            Err(PolicyFault::Secret)
                        },
                        None => Ok(spec_secret_digest(h, d, name)),
                    },
                }
            },
            _ => Err(PolicyFault::Expression),
        },
        ExprView::And(bs) => if bs.len() == 0 {
            Err(PolicyFault::Expression)
        } else {
            spec_execute_and(bs, bs.len() as int, d, h, size, names)
        },
        ExprView::Or(bs) => match spec_execute_or(bs, bs.len() as int, h, size, names) {
            Err(f) => Err(f),
            Ok(list) => Ok(spec_policy_update(h, spec_zero_digest(size), TpmCc::PolicyOR, spec_concat(list))),
        },
        _ => Err(PolicyFault::Expression),
    }
}

/// The digest after running the first `k` parts of a conjunction from `d`.
pub open spec fn spec_execute_and(
    bs: Seq<ExprView>,
    k: int,
    d: Seq<u8>,
    h: TpmHash,
    size: nat,
    names: Seq<(u32, Vec<u8>)>,
) -> Result<Seq<u8>, PolicyFault>
    decreases bs, k,
{
    if k <= 0 || k > bs.len() {
        Ok(d)
    } else {
        match spec_execute_and(bs, k - 1, d, h, size, names) {
            Err(f) => Err(f),
            Ok(d2) => spec_execute(bs[k - 1], d2, h, size, names),
        }
    }
}

/// The digests of the first `k` branches of a disjunction, each run from a
/// restarted digest; more than `MAX_POLICY_OR_DIGESTS` of them stop the run.
pub open spec fn spec_execute_or(
    bs: Seq<ExprView>,
    k: int,
    h: TpmHash,
    size: nat,
    names: Seq<(u32, Vec<u8>)>,
) -> Result<Seq<Seq<u8>>, PolicyFault>
    decreases bs, k,
{
    if k <= 0 || k > bs.len() {
        Ok(Seq::empty())
    } else {
        match spec_execute_or(bs, k - 1, h, size, names) {
            Err(f) => Err(f),
            Ok(list) => match spec_execute(bs[k - 1], spec_zero_digest(size), h, size, names) {
                Err(f) => Err(f),
                Ok(x) => if list.len() >= MAX_POLICY_OR_DIGESTS {
                    Err(PolicyFault::Expression)
                } else {
                    Ok(list.push(x))
                },
            },
        }
    }
}

/// The result of `execute_policy` against the run that `spec_execute`
/// gives: the digest both returned and left in the session, or the fault.
pub open spec fn spec_execute_result(
    r: Result<Vec<u8>, PolicyError>,
    s: Result<Seq<u8>, PolicyFault>,
    final_digest: Seq<u8>,
) -> bool {
    match s {
        Ok(d) => r matches Ok(x) && x@ == d && final_digest == d,
        Err(f) => r matches Err(e) && spec_fault_of(e) == Some(f),
    }
}

/// A failure of the hash computations of the session.
pub open spec fn spec_hash_failure(r: Result<Vec<u8>, PolicyError>) -> bool {
    r matches Err(e) && (e is Crypto || e is Protocol)
}

proof fn lemma_and_fail_stays(
    bs: Seq<ExprView>,
    k: int,
    n: int,
    d: Seq<u8>,
    h: TpmHash,
    size: nat,
    names: Seq<(u32, Vec<u8>)>,
)
    requires
        0 <= k <= n <= bs.len(),
        spec_execute_and(bs, k, d, h, size, names) is Err,
    ensures
        spec_execute_and(bs, n, d, h, size, names) == spec_execute_and(bs, k, d, h, size, names),
    decreases n - k,
{
    if k < n {
        lemma_and_fail_stays(bs, k, n - 1, d, h, size, names);
    }
}

proof fn lemma_or_fail_stays(
    bs: Seq<ExprView>,
    k: int,
    n: int,
    h: TpmHash,
    size: nat,
    names: Seq<(u32, Vec<u8>)>,
)
    requires
        0 <= k <= n <= bs.len(),
        spec_execute_or(bs, k, h, size, names) is Err,
    ensures
        spec_execute_or(bs, n, h, size, names) == spec_execute_or(bs, k, h, size, names),
    decreases n - k,
{
    if k < n {
        lemma_or_fail_stays(bs, k, n - 1, h, size, names);
    }
}

/// Runs a policy expression on a software policy session and returns the
/// resulting policy digest, which the session also holds.
///
/// The result is the run that `spec_execute` gives from the session's digest
/// (a fault of it is `InvalidExpression`, `InvalidSecret` or
/// `CapacityExceeded`), unless a hash computation of the session fails first
/// (a `Crypto` or `Protocol` error). The session keeps its hash.
pub fn execute_policy(
    ast: &PolicyExpr,
    session: &mut SoftwarePolicySession,
    names: &Vec<(u32, Vec<u8>)>,
) -> (r: Result<Vec<u8>, PolicyError>)
    requires
        spec_expr_fits(ast@),
    ensures
        final(session)@.hash_alg == old(session)@.hash_alg,
        final(session)@.digest_size == old(session)@.digest_size,
        spec_hash_failure(r) || spec_execute_result(
            r,
            spec_execute(
                ast@,
                old(session)@.digest,
                old(session).spec_hash(),
                old(session)@.digest_size,
                names@,
            ),
            final(session)@.digest,
        ),
    decreases ast,
{
    let ghost h = session.spec_hash();
    let ghost size = session@.digest_size;
    let ghost d0 = session@.digest;
    match ast {
        PolicyExpr::Pcr { selections, digest } => {
            let x = match digest {
                Some(x) => x,
                None => {
                    return Err(PolicyError::InvalidExpression(String::from_str("expected a digest in pcr()")));
                },
            };
            if x.len() > MAX_DIGEST_SIZE {
                return Err(PolicyError::CapacityExceeded);
            }
            proof {
                assert forall|i: int| 0 <= i < selections@.len() implies (#[trigger] selections@[i]).pcr_select@.len()
                    <= TPM_PCR_SELECT_MAX by {
                    assert(selections_view(selections@)[i] == selections@[i]@);
                }
            }
            session.policy_pcr(x.as_slice(), selections)?;
            session.get_digest()
        },
        PolicyExpr::Secret { auth_handle, password } => {
            let handle = match &**auth_handle {
                PolicyExpr::Handle(handle) => {
                    assert(spec_expr_view(**auth_handle) == (ExprView::Handle { mask: handle.mask_bits(), value: handle.value_bits() }));
                    handle
                },
                _ => {
                    assert(!(spec_expr_view(**auth_handle) is Handle));
                    return Err(PolicyError::InvalidExpression(String::from_str("secret() first argument must be a handle")));
                },
            };
            let value = match handle.value() {
                Some(v) => v,
                None => {
                    return Err(PolicyError::InvalidExpression(String::from_str("secret() handle cannot be a pattern")));
                },
            };
            if (value >> 24) != 0x81 {
                return Err(PolicyError::InvalidExpression(String::from_str("secret() handle must be a persistent TPM handle")));
            }
            let name = match lookup_name(names, value) {
                Some(n) => n,
                None => {
                    return Err(PolicyError::InvalidExpression(String::from_str("handle name not found")));
                },
            };
            let pw: Option<&[u8]> = match password {
                Some(p) => match &**p {
                    PolicyExpr::Password(v) => {
                        assert(spec_expr_view(**p) is Password);
                        Some(v.as_slice())
                    },
                    _ => {
                        assert(!(spec_expr_view(**p) is Password));
                        return Err(PolicyError::InvalidSecret(String::from_str("expected a password")));
                    },
                },
                None => None,
            };
            session.policy_secret(value, name.as_slice(), pw, None)?;
            session.get_digest()
        },
        PolicyExpr::And(v) => {
            proof {
                lemma_and_or_view(*v);
            }
            let ghost bs = spec_exprs_view(v@);
            if v.len() == 0 {
                return Err(PolicyError::InvalidExpression(String::from_str("'and'-expression must be non-empty")));
            }
            let mut last: Vec<u8> = Vec::new();
            let mut i: usize = 0;
            while i < v.len()
                invariant
                    *ast == PolicyExpr::And(*v),
                    bs == spec_exprs_view(v@),
                    ast@ == ExprView::And(bs),
                    spec_expr_fits(ast@),
                    v@.len() > 0,
                    i <= v@.len(),
                    h == session.spec_hash(),
                    session@.hash_alg == old(session)@.hash_alg,
                    session@.digest_size == size,
                    size == old(session)@.digest_size,
                    h == old(session).spec_hash(),
                    d0 == old(session)@.digest,
                    spec_execute_and(bs, i as int, d0, h, size, names@) == Ok::<Seq<u8>, PolicyFault>(session@.digest),
                    i > 0 ==> last@ == session@.digest,
                decreases v@.len() - i,
            {
                proof {
                    assert(decreases_to!(*ast => (*ast)->And_0));
                    assert(decreases_to!(*v => v@));
                    assert(decreases_to!(v@ => v@[i as int]));
                    lemma_all_fit(bs, bs.len() as int, i as int);
                    assert(bs[i as int] == v@[i as int]@);
                }
                let r = execute_policy(&v[i], session, names);
                match r {
                    Ok(d) => {
                        last = d;
                    },
                    Err(e) => {
                        proof {
                            if !spec_hash_failure(Err::<Vec<u8>, PolicyError>(e)) {
                                lemma_and_fail_stays(bs, i + 1, bs.len() as int, d0, h, size, names@);
                            }
                        }
                        return Err(e);
                    },
                }
                i = i + 1;
            }
            Ok(last)
        },
        PolicyExpr::Or(v) => {
            proof {
                lemma_and_or_view(*v);
            }
            let ghost bs = spec_exprs_view(v@);
            let mut digests: Vec<Vec<u8>> = Vec::new();
            let mut i: usize = 0;
            assert(digests@.map_values(|x: Vec<u8>| x@) =~= Seq::<Seq<u8>>::empty());
            while i < v.len()
                invariant
                    *ast == PolicyExpr::Or(*v),
                    bs == spec_exprs_view(v@),
                    ast@ == ExprView::Or(bs),
                    spec_expr_fits(ast@),
                    i <= v@.len(),
                    h == session.spec_hash(),
                    session@.hash_alg == old(session)@.hash_alg,
                    session@.digest_size == size,
                    size == old(session)@.digest_size,
                    h == old(session).spec_hash(),
                    d0 == old(session)@.digest,
                    spec_execute_or(bs, i as int, h, size, names@) == Ok::<Seq<Seq<u8>>, PolicyFault>(
                        digests@.map_values(|x: Vec<u8>| x@),
                    ),
                decreases v@.len() - i,
            {
                proof {
                    assert(decreases_to!(*ast => (*ast)->Or_0));
                    assert(decreases_to!(*v => v@));
                    assert(decreases_to!(v@ => v@[i as int]));
                    lemma_all_fit(bs, bs.len() as int, i as int);
                    assert(bs[i as int] == v@[i as int]@);
                }
                let _ = session.policy_restart();
                let r = execute_policy(&v[i], session, names);
                let x = match r {
                    Ok(x) => x,
                    Err(e) => {
                        proof {
                            if !spec_hash_failure(Err::<Vec<u8>, PolicyError>(e)) {
                                lemma_or_fail_stays(bs, i + 1, bs.len() as int, h, size, names@);
                            }
                        }
                        return Err(e);
                    },
                };
                if digests.len() >= MAX_POLICY_OR_DIGESTS {
                    proof {
                        lemma_or_fail_stays(bs, i + 1, bs.len() as int, h, size, names@);
                    }
                    return Err(PolicyError::InvalidExpression(String::from_str("too many branches")));
                }
                let ghost before = digests@;
                digests.push(x);
                proof {
                    assert(digests@.map_values(|y: Vec<u8>| y@) =~= before.map_values(|y: Vec<u8>| y@).push(x@));
                }
                i = i + 1;
            }
            session.policy_or(&digests)?;
            session.get_digest()
        },
        _ => Err(PolicyError::InvalidExpression(String::from_str("expected a policy, not a literal"))),
    }
}

} // verus!
