//! A software policy session: the policy digest that a TPM computes for a
//! policy, computed without one, for dry runs.

use crate::constant::{MAX_DIGEST_SIZE, MAX_PCR_SELECTIONS, TPM_PCR_SELECT_MAX};
use crate::crypto::{crypto_hash_size, join_chunks, spec_crypto_hash_size, spec_joined};
use crate::data::alg::TpmAlgId;
use crate::data::attest::{push_selections, spec_selections_bytes};
use crate::data::cc::TpmCc;
use crate::data::pcr::{selections_view, TpmsPcrSelection};
use crate::error::TpmError;
use crate::frame::codec::{push_bytes, push_u32, spec_be32_bytes};
use crate::hash::{TpmCryptoError, TpmHash};
use crate::policy::PolicyError;
use vstd::prelude::*;
use vstd::slice::slice_to_vec;

verus! {

/// The policy digest after a policy command: the digest of the old digest,
/// the command code and the command's parameters, one after another.
pub open spec fn spec_policy_update(h: TpmHash, current: Seq<u8>, cc: TpmCc, params: Seq<u8>) -> Seq<
    u8,
> {
    h.spec_digest(current + spec_be32_bytes(cc.spec_value()) + params)
}

/// The policy digest of a fresh or restarted session: all zeros.
pub open spec fn spec_zero_digest(n: nat) -> Seq<u8> {
    Seq::new(n, |i: int| 0u8)
}

/// Returns `n` zero bytes.
fn zero_digest(n: usize) -> (r: Vec<u8>)
    ensures
        r@ == spec_zero_digest(n as nat),
{
    let mut v: Vec<u8> = Vec::new();
    let mut i: usize = 0;
    while i < n
        invariant
            i <= n,
            v@ == spec_zero_digest(i as nat),
        decreases n - i,
    {
        v.push(0u8);
        i = i + 1;
        assert(v@ =~= spec_zero_digest(i as nat));
    }
    v
}

/// Updates a policy digest with a new command, as a TPM hashes it.
///
/// The hash algorithm must name a hash (else `Crypto(InvalidHash)`); the new
/// digest is the digest of the old one, the command code and the joined
/// parameters, and must fit a digest buffer (else a `Protocol` error). On any
/// error the digest is left as it was.
pub fn update_policy_digest(
    current_digest: &mut Vec<u8>,
    hash_alg: TpmAlgId,
    cc: TpmCc,
    params: &[&[u8]],
) -> (r: Result<(), PolicyError>)
    ensures
        TpmHash::spec_from_alg_id(hash_alg) is None ==> r == Err::<(), PolicyError>(
            PolicyError::Crypto(TpmCryptoError::InvalidHash),
        ),
        r is Ok ==> (TpmHash::spec_from_alg_id(hash_alg) matches Some(h) && final(current_digest)@
            == spec_policy_update(h, old(current_digest)@, cc, spec_joined(params@))),
        r is Ok ==> final(current_digest)@.len() <= MAX_DIGEST_SIZE,
        r is Err ==> final(current_digest)@ == old(current_digest)@,
        r matches Err(PolicyError::Protocol(_)) ==> (TpmHash::spec_from_alg_id(hash_alg) matches Some(
            h,
        ) && spec_policy_update(h, old(current_digest)@, cc, spec_joined(params@)).len()
            > MAX_DIGEST_SIZE),
        r matches Err(e) ==> e is Crypto || e is Protocol,
        r matches Err(PolicyError::Crypto(c)) ==> c == TpmCryptoError::InvalidHash || c
            == TpmCryptoError::OperationFailed,
{
    let h = match TpmHash::try_from_alg_id(hash_alg) {
        Ok(h) => h,
        Err(e) => {
            return Err(PolicyError::Crypto(e));
        },
    };
    let joined = join_chunks(params);
    let mut data: Vec<u8> = slice_to_vec(current_digest.as_slice());
    push_u32(&mut data, cc.value());
    push_bytes(&mut data, joined.as_slice());
    let new_digest = match h.digest_of(data.as_slice()) {
        Ok(d) => d,
        Err(e) => {
            return Err(PolicyError::Crypto(e));
        },
    };
    if new_digest.len() > MAX_DIGEST_SIZE {
        return Err(
            PolicyError::Protocol(
                TpmError::TooManyItems {
                    offset: 0,
                    limit: MAX_DIGEST_SIZE,
                    actual: new_digest.len(),
                },
            ),
        );
    }
    *current_digest = new_digest;
    Ok(())
}

/// A software policy session, as plain values.
pub struct PolicySessionView {
    pub digest: Seq<u8>,
    pub hash_alg: TpmAlgId,
    pub digest_size: nat,
}

/// A session that computes TPM policy digests in software.
pub struct SoftwarePolicySession {
    digest: Vec<u8>,
    hash_alg: TpmAlgId,
    digest_size: usize,
}

impl View for SoftwarePolicySession {
    type V = PolicySessionView;

    closed spec fn view(&self) -> PolicySessionView {
        PolicySessionView {
            digest: self.digest@,
            hash_alg: self.hash_alg,
            digest_size: self.digest_size as nat,
        }
    }
}

/// The wire bytes of a list of PCR selections: the count, then each
/// selection.
pub open spec fn spec_pcr_selection_list_bytes(pcrs: Seq<TpmsPcrSelection>) -> Seq<u8> {
    spec_be32_bytes(pcrs.len() as u32) + spec_selections_bytes(selections_view(pcrs))
}

/// The digests of a list, one after another.
pub open spec fn spec_digest_list_bytes(list: Seq<Vec<u8>>) -> Seq<u8> {
    list.map_values(|d: Vec<u8>| d@).flatten()
}

impl SoftwarePolicySession {
    /// The session holds a digest of the size of its hash.
    #[verifier::type_invariant]
    spec fn session_inv(self) -> bool {
        &&& spec_crypto_hash_size(self.hash_alg) == Some(self.digest_size as nat)
        &&& self.digest@.len() <= MAX_DIGEST_SIZE
    }

    /// The hash of the session.
    pub open spec fn spec_hash(&self) -> TpmHash {
        TpmHash::spec_from_alg_id(self@.hash_alg).unwrap()
    }

    /// Creates a new software policy session with a zero digest.
    ///
    /// An algorithm that is no hash of fixed size is `InvalidAlgorithm`.
    pub fn new(hash_alg: TpmAlgId) -> (r: Result<Self, PolicyError>)
        ensures
            match spec_crypto_hash_size(hash_alg) {
                Some(n) => r matches Ok(s) && s@ == PolicySessionView {
                    digest: spec_zero_digest(n),
                    hash_alg,
                    digest_size: n,
                },
                None => r == Err::<Self, PolicyError>(PolicyError::InvalidAlgorithm(hash_alg)),
            },
    {
        let digest_size = match crypto_hash_size(hash_alg) {
            Some(n) => n,
            None => {
                return Err(PolicyError::InvalidAlgorithm(hash_alg));
            },
        };
        let digest = zero_digest(digest_size);
        Ok(SoftwarePolicySession { digest, hash_alg, digest_size })
    }

    /// Applies a `TPM2_PolicyPCR`: the digest is updated with the PCR
    /// selection list and the PCR digest.
    ///
    /// A digest that OpenSSL fails to compute, or that does not fit a digest
    /// buffer, is an error and leaves the session as it was.
    pub fn policy_pcr(&mut self, pcr_digest: &[u8], pcrs: &Vec<TpmsPcrSelection>) -> (r: Result<
        (),
        PolicyError,
    >)
        requires
            pcrs@.len() <= MAX_PCR_SELECTIONS,
            forall|i: int|
                0 <= i < pcrs@.len() ==> (#[trigger] pcrs@[i]).pcr_select@.len()
                    <= TPM_PCR_SELECT_MAX,
        ensures
            final(self)@.hash_alg == old(self)@.hash_alg,
            final(self)@.digest_size == old(self)@.digest_size,
            r is Ok ==> final(self)@.digest == spec_policy_update(
                old(self).spec_hash(),
                old(self)@.digest,
                TpmCc::PolicyPcr,
                spec_pcr_selection_list_bytes(pcrs@) + pcr_digest@,
            ),
            r is Ok ==> final(self)@.digest.len() <= MAX_DIGEST_SIZE,
            r is Err ==> final(self)@.digest == old(self)@.digest,
            r matches Err(e) ==> e == PolicyError::Crypto(TpmCryptoError::InvalidHash) || e
                == PolicyError::Crypto(TpmCryptoError::OperationFailed) || (e is Protocol
                && spec_policy_update(
                old(self).spec_hash(),
                old(self)@.digest,
                TpmCc::PolicyPcr,
                spec_pcr_selection_list_bytes(pcrs@) + pcr_digest@,
            ).len() > MAX_DIGEST_SIZE),
    {
        proof {
            use_type_invariant(&*self);
        }
        let mut pcrs_bytes: Vec<u8> = Vec::new();
        push_u32(&mut pcrs_bytes, pcrs.len() as u32);
        push_selections(&mut pcrs_bytes, pcrs);
        let chunks: [&[u8]; 2] = [pcrs_bytes.as_slice(), pcr_digest];
        let mut digest = slice_to_vec(self.digest.as_slice());
        let r = update_policy_digest(&mut digest, self.hash_alg, TpmCc::PolicyPcr, &chunks);
        proof {
            let cv = chunks@.map_values(|c: &[u8]| c@);
            let e = Seq::<Seq<u8>>::empty();
            e.lemma_flatten_push(pcrs_bytes@);
            e.push(pcrs_bytes@).lemma_flatten_push(pcr_digest@);
            assert(cv =~= e.push(pcrs_bytes@).push(pcr_digest@));
            assert(spec_joined(chunks@) =~= pcrs_bytes@ + pcr_digest@);
        }
        if r.is_ok() {
            self.digest = digest;
        }
        r
    }

    /// Applies a `TPM2_PolicyOR`: the digest is reset to zeros, then updated
    /// with the branch digests one after another.
    ///
    /// A digest that OpenSSL fails to compute, or that does not fit a digest
    /// buffer, is an error and leaves the digest reset.
    pub fn policy_or(&mut self, p_hash_list: &Vec<Vec<u8>>) -> (r: Result<(), PolicyError>)
        ensures
            final(self)@.hash_alg == old(self)@.hash_alg,
            final(self)@.digest_size == old(self)@.digest_size,
            r is Ok ==> final(self)@.digest == spec_policy_update(
                old(self).spec_hash(),
                spec_zero_digest(old(self)@.digest_size),
                TpmCc::PolicyOR,
                spec_digest_list_bytes(p_hash_list@),
            ),
            r is Err ==> final(self)@.digest == spec_zero_digest(old(self)@.digest_size),
            r matches Err(e) ==> e is Crypto || e is Protocol,
    {
        proof {
            use_type_invariant(&*self);
        }
        let mut digests_as_bytes: Vec<u8> = Vec::new();
        let mut i: usize = 0;
        while i < p_hash_list.len()
            invariant
                i <= p_hash_list@.len(),
                digests_as_bytes@ == spec_digest_list_bytes(p_hash_list@.take(i as int)),
            decreases p_hash_list@.len() - i,
        {
            let ghost prev = p_hash_list@.take(i as int).map_values(|d: Vec<u8>| d@);
            push_bytes(&mut digests_as_bytes, p_hash_list[i].as_slice());
            proof {
                assert(p_hash_list@.take(i + 1).map_values(|d: Vec<u8>| d@) =~= prev.push(
                    p_hash_list@[i as int]@,
                ));
                prev.lemma_flatten_push(p_hash_list@[i as int]@);
            }
            i = i + 1;
        }
        assert(p_hash_list@.take(i as int) =~= p_hash_list@);
        let mut digest = zero_digest(self.digest_size);
        let chunks: [&[u8]; 1] = [digests_as_bytes.as_slice()];
        let r = update_policy_digest(&mut digest, self.hash_alg, TpmCc::PolicyOR, &chunks);
        proof {
            let cv = chunks@.map_values(|c: &[u8]| c@);
            let e = Seq::<Seq<u8>>::empty();
            e.lemma_flatten_push(digests_as_bytes@);
            assert(cv =~= e.push(digests_as_bytes@));
            assert(spec_joined(chunks@) =~= digests_as_bytes@);
        }
        self.digest = digest;
        r
    }

    /// Applies a `TPM2_PolicySecret`: the digest is updated with the name of
    /// the authorizing object, and the result hashed again with an empty
    /// policy reference.
    ///
    /// A digest that OpenSSL fails to compute, or a final digest that does not
    /// fit a digest buffer, is an error and leaves the session as it was.
    pub fn policy_secret(
        &mut self,
        auth_handle: u32,
        auth_handle_name: &[u8],
        password: Option<&[u8]>,
        cp_hash: Option<Vec<u8>>,
    ) -> (r: Result<(), PolicyError>)
        ensures
            final(self)@.hash_alg == old(self)@.hash_alg,
            final(self)@.digest_size == old(self)@.digest_size,
            r is Ok ==> final(self)@.digest == old(self).spec_hash().spec_digest(
                spec_policy_update(
                    old(self).spec_hash(),
                    old(self)@.digest,
                    TpmCc::PolicySecret,
                    auth_handle_name@,
                ),
            ),
            r is Ok ==> final(self)@.digest.len() <= MAX_DIGEST_SIZE,
            r is Err ==> final(self)@.digest == old(self)@.digest,
            r matches Err(e) ==> e == PolicyError::Crypto(TpmCryptoError::InvalidHash) || e
                == PolicyError::Crypto(TpmCryptoError::OperationFailed) || (e is Protocol
                && old(self).spec_hash().spec_digest(
                spec_policy_update(
                    old(self).spec_hash(),
                    old(self)@.digest,
                    TpmCc::PolicySecret,
                    auth_handle_name@,
                ),
            ).len() > MAX_DIGEST_SIZE),
    {
        proof {
            use_type_invariant(&*self);
        }
        let h = match TpmHash::try_from_alg_id(self.hash_alg) {
            Ok(h) => h,
            Err(e) => {
                return Err(PolicyError::Crypto(e));
            },
        };
        let mut data: Vec<u8> = slice_to_vec(self.digest.as_slice());
        push_u32(&mut data, TpmCc::PolicySecret.value());
        push_bytes(&mut data, auth_handle_name);
        let intermediate = match h.digest_of(data.as_slice()) {
            Ok(d) => d,
            Err(e) => {
                return Err(PolicyError::Crypto(e));
            },
        };
        let policy_ref: Vec<u8> = Vec::new();
        let mut second: Vec<u8> = slice_to_vec(intermediate.as_slice());
        push_bytes(&mut second, policy_ref.as_slice());
        assert(second@ =~= intermediate@);
        let final_digest = match h.digest_of(second.as_slice()) {
            Ok(d) => d,
            Err(e) => {
                return Err(PolicyError::Crypto(e));
            },
        };
        if final_digest.len() > MAX_DIGEST_SIZE {
            return Err(
                PolicyError::Protocol(
                    TpmError::TooManyItems {
                        offset: 0,
                        limit: MAX_DIGEST_SIZE,
                        actual: final_digest.len(),
                    },
                ),
            );
        }
        self.digest = final_digest;
        Ok(())
    }

    /// Applies a `TPM2_PolicyRestart`: the digest is reset to zeros.
    pub fn policy_restart(&mut self) -> (r: Result<(), PolicyError>)
        ensures
            r is Ok,
            final(self)@ == (PolicySessionView {
                digest: spec_zero_digest(old(self)@.digest_size),
                ..old(self)@
            }),
    {
        proof {
            use_type_invariant(&*self);
        }
        self.digest = zero_digest(self.digest_size);
        Ok(())
    }

    /// Returns the current policy digest.
    pub fn get_digest(&self) -> (r: Result<Vec<u8>, PolicyError>)
        ensures
            r matches Ok(d) && d@ == self@.digest,
    {
        Ok(slice_to_vec(self.digest.as_slice()))
    }

    /// Returns the size of the session's digests.
    pub fn digest_size(&self) -> (r: usize)
        ensures
            r == self@.digest_size,
            r <= MAX_DIGEST_SIZE,
    {
        proof {
            use_type_invariant(self);
        }
        self.digest_size
    }

    /// Returns the hash algorithm of the session.
    pub fn hash_alg(&self) -> (r: TpmAlgId)
        ensures
            r == self@.hash_alg,
            spec_crypto_hash_size(r) == Some(self@.digest_size),
            TpmHash::spec_from_alg_id(r) is Some,
    {
        proof {
            use_type_invariant(self);
        }
        self.hash_alg
    }
}

} // verus!
