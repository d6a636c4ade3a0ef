//! Signatures (`TPMS_SIGNATURE_*`, `TPMU_SIGNATURE`, `TPMT_SIGNATURE`) and
//! tagged digests (`TPMT_HA`).

use crate::constant::{MAX_ECC_KEY_BYTES, MAX_RSA_KEY_BYTES};
use crate::data::alg::TpmAlgId;
use crate::data::ha::{digest_size, spec_digest_size, TpmuHa};
use crate::data::public::{lemma_read_tpm2b_at, push_tpm2b, read_tpm2b_at, spec_read_tpm2b};
use crate::data::schemes::spec_alg_bytes;
use crate::data::sym::{lemma_read_alg_of_bytes, read_alg_at, spec_read_alg};
use crate::error::{TpmError, TpmResult};
use crate::frame::auth::spec_tpm2b_bytes;
use crate::frame::codec::{lemma_split_run, push_u16};
use vstd::prelude::*;
use vstd::slice::{slice_subrange, slice_to_vec};

verus! {

/// A digest tagged by its hash algorithm (`TPMT_HA`).
#[derive(Debug, Clone, PartialEq, Eq)]
pub struct TpmtHa {
    pub hash_alg: TpmAlgId,
    pub digest: TpmuHa,
}

/// An RSA signature (`TPMS_SIGNATURE_RSA`).
#[derive(Debug, Clone, PartialEq, Eq)]
pub struct TpmsSignatureRsa {
    pub hash: TpmAlgId,
    pub sig: Vec<u8>,
}

/// An ECC signature (`TPMS_SIGNATURE_ECC`).
#[derive(Debug, Clone, PartialEq, Eq)]
pub struct TpmsSignatureEcc {
    pub hash: TpmAlgId,
    pub signature_r: Vec<u8>,
    pub signature_s: Vec<u8>,
}

/// A signature, by its scheme (`TPMU_SIGNATURE`).
#[derive(Debug, Clone, PartialEq, Eq)]
pub enum TpmuSignature {
    Rsassa(TpmsSignatureRsa),
    Rsapss(TpmsSignatureRsa),
    Ecdsa(TpmsSignatureEcc),
    Ecdaa(TpmsSignatureEcc),
    Sm2(TpmsSignatureEcc),
    Ecschnorr(TpmsSignatureEcc),
    Hmac(TpmtHa),
    Null,
}

/// A signature with its scheme (`TPMT_SIGNATURE`).
#[derive(Debug, Clone, PartialEq, Eq)]
pub struct TpmtSignature {
    pub sig_alg: TpmAlgId,
    pub signature: TpmuSignature,
}

// ---------------------------------------------------------------------------
// Values
// ---------------------------------------------------------------------------

/// The value of a digest: none for `Null`.
pub enum DigestValue {
    Null,
    Digest(Seq<u8>),
}

/// The value of a tagged digest.
pub struct HaValue {
    pub hash_alg: TpmAlgId,
    pub digest: DigestValue,
}

/// The value of an RSA signature.
pub struct RsaSignatureValue {
    pub hash: TpmAlgId,
    pub sig: Seq<u8>,
}

/// The value of an ECC signature.
pub struct EccSignatureValue {
    pub hash: TpmAlgId,
    pub signature_r: Seq<u8>,
    pub signature_s: Seq<u8>,
}

/// The value of a signature.
pub enum SignatureValue {
    Rsassa(RsaSignatureValue),
    Rsapss(RsaSignatureValue),
    Ecdsa(EccSignatureValue),
    Ecdaa(EccSignatureValue),
    Sm2(EccSignatureValue),
    Ecschnorr(EccSignatureValue),
    Hmac(HaValue),
    Null,
}

/// The value of a signature with its scheme.
pub struct TaggedSignatureValue {
    pub sig_alg: TpmAlgId,
    pub signature: SignatureValue,
}

impl View for TpmuHa {
    type V = DigestValue;

    open spec fn view(&self) -> DigestValue {
        match self {
            TpmuHa::Null => DigestValue::Null,
            TpmuHa::Digest(d) => DigestValue::Digest(d@),
        }
    }
}

impl View for TpmtHa {
    type V = HaValue;

    open spec fn view(&self) -> HaValue {
        HaValue { hash_alg: self.hash_alg, digest: self.digest@ }
    }
}

impl View for TpmsSignatureRsa {
    type V = RsaSignatureValue;

    open spec fn view(&self) -> RsaSignatureValue {
        RsaSignatureValue { hash: self.hash, sig: self.sig@ }
    }
}

impl View for TpmsSignatureEcc {
    type V = EccSignatureValue;

    open spec fn view(&self) -> EccSignatureValue {
        EccSignatureValue { hash: self.hash, signature_r: self.signature_r@, signature_s: self.signature_s@ }
    }
}

impl View for TpmuSignature {
    type V = SignatureValue;

    open spec fn view(&self) -> SignatureValue {
        match self {
            TpmuSignature::Rsassa(s) => SignatureValue::Rsassa(s@),
            TpmuSignature::Rsapss(s) => SignatureValue::Rsapss(s@),
            TpmuSignature::Ecdsa(s) => SignatureValue::Ecdsa(s@),
            TpmuSignature::Ecdaa(s) => SignatureValue::Ecdaa(s@),
            TpmuSignature::Sm2(s) => SignatureValue::Sm2(s@),
            TpmuSignature::Ecschnorr(s) => SignatureValue::Ecschnorr(s@),
            TpmuSignature::Hmac(h) => SignatureValue::Hmac(h@),
            TpmuSignature::Null => SignatureValue::Null,
        }
    }
}

impl View for TpmtSignature {
    type V = TaggedSignatureValue;

    open spec fn view(&self) -> TaggedSignatureValue {
        TaggedSignatureValue { sig_alg: self.sig_alg, signature: self.signature@ }
    }
}

// ---------------------------------------------------------------------------
// Wire bytes and well-formedness
// ---------------------------------------------------------------------------

impl DigestValue {
    /// The digest bytes, without a size.
    pub open spec fn spec_bytes(self) -> Seq<u8> {
        match self {
            DigestValue::Null => Seq::empty(),
            DigestValue::Digest(d) => d,
        }
    }
}

impl HaValue {
    /// The hash algorithm, then the digest without a size.
    pub open spec fn spec_bytes(self) -> Seq<u8> {
        spec_alg_bytes(self.hash_alg) + self.digest.spec_bytes()
    }

    /// The digest is of the algorithm's size: none for `Null`.
    pub open spec fn wf(self) -> bool {
        match spec_digest_size(self.hash_alg) {
            None => false,
            Some(n) => if self.hash_alg == TpmAlgId::Null {
                self.digest is Null
            } else {
                self.digest matches DigestValue::Digest(d) && d.len() == n
            },
        }
    }
}

impl RsaSignatureValue {
    pub open spec fn spec_bytes(self) -> Seq<u8> {
        spec_alg_bytes(self.hash) + spec_tpm2b_bytes(self.sig)
    }

    /// The signature fits its buffer.
    pub open spec fn fits(self) -> bool {
        self.sig.len() <= MAX_RSA_KEY_BYTES
    }
}

impl EccSignatureValue {
    pub open spec fn spec_bytes(self) -> Seq<u8> {
        spec_alg_bytes(self.hash) + spec_tpm2b_bytes(self.signature_r) + spec_tpm2b_bytes(self.signature_s)
    }

    /// Both parameters fit their buffers.
    pub open spec fn fits(self) -> bool {
        self.signature_r.len() <= MAX_ECC_KEY_BYTES && self.signature_s.len() <= MAX_ECC_KEY_BYTES
    }
}

impl SignatureValue {
    /// The bytes of the selected member; none for `Null`.
    pub open spec fn spec_bytes(self) -> Seq<u8> {
        match self {
            SignatureValue::Rsassa(s) | SignatureValue::Rsapss(s) => s.spec_bytes(),
            SignatureValue::Ecdsa(s) | SignatureValue::Ecdaa(s) | SignatureValue::Sm2(s)
            | SignatureValue::Ecschnorr(s) => s.spec_bytes(),
            SignatureValue::Hmac(h) => h.spec_bytes(),
            SignatureValue::Null => Seq::empty(),
        }
    }

    /// The member fits its buffers.
    pub open spec fn fits(self) -> bool {
        match self {
            SignatureValue::Rsassa(s) | SignatureValue::Rsapss(s) => s.fits(),
            SignatureValue::Ecdsa(s) | SignatureValue::Ecdaa(s) | SignatureValue::Sm2(s)
            | SignatureValue::Ecschnorr(s) => s.fits(),
            SignatureValue::Hmac(h) => h.digest.spec_bytes().len() <= 64,
            SignatureValue::Null => true,
        }
    }
}

/// `v` is the member of `TPMU_SIGNATURE` that `tag` selects, and is itself
/// well formed.
pub open spec fn signature_selects(tag: TpmAlgId, v: SignatureValue) -> bool {
    match v {
        SignatureValue::Rsassa(s) => tag == TpmAlgId::Rsassa && s.fits(),
        SignatureValue::Rsapss(s) => tag == TpmAlgId::Rsapss && s.fits(),
        SignatureValue::Ecdsa(s) => tag == TpmAlgId::Ecdsa && s.fits(),
        SignatureValue::Ecdaa(s) => tag == TpmAlgId::Ecdaa && s.fits(),
        SignatureValue::Sm2(s) => tag == TpmAlgId::Sm2 && s.fits(),
        SignatureValue::Ecschnorr(s) => tag == TpmAlgId::Ecschnorr && s.fits(),
        SignatureValue::Hmac(h) => tag == TpmAlgId::Hmac && h.wf(),
        SignatureValue::Null => tag == TpmAlgId::Null,
    }
}

impl TaggedSignatureValue {
    /// The scheme, then the signature it selects.
    pub open spec fn spec_bytes(self) -> Seq<u8> {
        spec_alg_bytes(self.sig_alg) + self.signature.spec_bytes()
    }

    /// The signature is the member that the scheme selects.
    pub open spec fn wf(self) -> bool {
        signature_selects(self.sig_alg, self.signature)
    }
}

// ---------------------------------------------------------------------------
// Reading, as spec functions over the bytes `s` from `pos`
// ---------------------------------------------------------------------------

/// Reads the digest of the algorithm `alg` at `pos`: none for `Null`, the
/// algorithm's digest size in bytes for a hash algorithm.
pub open spec fn spec_read_digest(alg: TpmAlgId, s: Seq<u8>, pos: int) -> TpmResult<(DigestValue, int)> {
    match spec_digest_size(alg) {
        None => Err(TpmError::VariantNotAvailable { offset: 0, value: alg.spec_value() as u64 }),
        Some(n) => if alg == TpmAlgId::Null {
            Ok((DigestValue::Null, pos))
        } else if s.len() - pos < n {
            Err(TpmError::UnexpectedEnd { offset: 0, needed: n as usize, available: (s.len() - pos) as usize })
        } else {
            Ok((DigestValue::Digest(s.subrange(pos, pos + n)), pos + n))
        },
    }
}

/// Reads a tagged digest at `pos`.
pub open spec fn spec_read_ha(s: Seq<u8>, pos: int) -> TpmResult<(HaValue, int)> {
    match spec_read_alg(s, pos) {
        Err(e) => Err(e),
        Ok((hash_alg, p)) => match spec_read_digest(hash_alg, s, p) {
            Err(e) => Err(e),
            Ok((digest, next)) => Ok((HaValue { hash_alg, digest }, next)),
        },
    }
}

/// Reads an RSA signature at `pos`.
pub open spec fn spec_read_rsa_signature(s: Seq<u8>, pos: int) -> TpmResult<(RsaSignatureValue, int)> {
    match spec_read_alg(s, pos) {
        Err(e) => Err(e),
        Ok((hash, p)) => match spec_read_tpm2b(s, p, MAX_RSA_KEY_BYTES) {
            Err(e) => Err(e),
            Ok((sig, next)) => Ok((RsaSignatureValue { hash, sig }, next)),
        },
    }
}

/// Reads an ECC signature at `pos`.
pub open spec fn spec_read_ecc_signature(s: Seq<u8>, pos: int) -> TpmResult<(EccSignatureValue, int)> {
    match spec_read_alg(s, pos) {
        Err(e) => Err(e),
        Ok((hash, p1)) => match spec_read_tpm2b(s, p1, MAX_ECC_KEY_BYTES) {
            Err(e) => Err(e),
            Ok((signature_r, p2)) => match spec_read_tpm2b(s, p2, MAX_ECC_KEY_BYTES) {
                Err(e) => Err(e),
                Ok((signature_s, next)) => Ok((EccSignatureValue { hash, signature_r, signature_s }, next)),
            },
        },
    }
}

/// Reads the signature that the scheme `tag` selects.
pub open spec fn spec_read_signature_member(tag: TpmAlgId, s: Seq<u8>, pos: int) -> TpmResult<(SignatureValue, int)> {
    match tag {
        TpmAlgId::Rsassa => match spec_read_rsa_signature(s, pos) {
            Err(e) => Err(e),
            Ok((v, next)) => Ok((SignatureValue::Rsassa(v), next)),
        },
        TpmAlgId::Rsapss => match spec_read_rsa_signature(s, pos) {
            Err(e) => Err(e),
            Ok((v, next)) => Ok((SignatureValue::Rsapss(v), next)),
        },
        TpmAlgId::Ecdsa => match spec_read_ecc_signature(s, pos) {
            Err(e) => Err(e),
            Ok((v, next)) => Ok((SignatureValue::Ecdsa(v), next)),
        },
        TpmAlgId::Ecdaa => match spec_read_ecc_signature(s, pos) {
            Err(e) => Err(e),
            Ok((v, next)) => Ok((SignatureValue::Ecdaa(v), next)),
        },
        TpmAlgId::Sm2 => match spec_read_ecc_signature(s, pos) {
            Err(e) => Err(e),
            Ok((v, next)) => Ok((SignatureValue::Sm2(v), next)),
        },
        TpmAlgId::Ecschnorr => match spec_read_ecc_signature(s, pos) {
            Err(e) => Err(e),
            Ok((v, next)) => Ok((SignatureValue::Ecschnorr(v), next)),
        },
        TpmAlgId::Hmac => match spec_read_ha(s, pos) {
            Err(e) => Err(e),
            Ok((v, next)) => Ok((SignatureValue::Hmac(v), next)),
        },
        TpmAlgId::Null => Ok((SignatureValue::Null, pos)),
        _ => Err(TpmError::VariantNotAvailable { offset: 0, value: tag.spec_value() as u64 }),
    }
}

/// Reads a signature with its scheme at `pos`.
pub open spec fn spec_read_signature(s: Seq<u8>, pos: int) -> TpmResult<(TaggedSignatureValue, int)> {
    match spec_read_alg(s, pos) {
        Err(e) => Err(e),
        Ok((sig_alg, p)) => match spec_read_signature_member(sig_alg, s, p) {
            Err(e) => Err(e),
            Ok((signature, next)) => Ok((TaggedSignatureValue { sig_alg, signature }, next)),
        },
    }
}

// ---------------------------------------------------------------------------
// Executable reading, sizes and writing
// ---------------------------------------------------------------------------

/// Reads the digest of the algorithm `alg` at `pos`.
fn read_digest_at(alg: TpmAlgId, buf: &[u8], pos: usize) -> (r: TpmResult<(TpmuHa, usize)>)
    requires
        pos <= buf@.len(),
    ensures
            match spec_read_digest(alg, buf@, pos as int) {
                Ok((v, next)) => r matches Ok((w, q)) && w@ == v && q == next && pos <= next <= buf@.len(),
                Err(e) => r == Err::<(TpmuHa, usize), TpmError>(e),
            },
{
    let n = match digest_size(alg) {
        None => return Err(TpmError::VariantNotAvailable { offset: 0, value: alg.value() as u64 }),
        Some(n) => n,
    };
    if alg == TpmAlgId::Null {
        return Ok((TpmuHa::Null, pos));
    }
    if buf.len() - pos < n {
        return Err(TpmError::UnexpectedEnd { offset: 0, needed: n, available: buf.len() - pos });
    }
    Ok((TpmuHa::Digest(slice_to_vec(slice_subrange(buf, pos, pos + n))), pos + n))
}

impl TpmtHa {
    pub(crate) fn read_at(buf: &[u8], pos: usize) -> (r: TpmResult<(TpmtHa, usize)>)
        requires
            pos <= buf@.len(),
        ensures
            match spec_read_ha(buf@, pos as int) {
                Ok((v, next)) => r matches Ok((w, q)) && w@ == v && q == next && pos <= next <= buf@.len(),
                Err(e) => r == Err::<(TpmtHa, usize), TpmError>(e),
            },
    {
        let (hash_alg, p) = read_alg_at(buf, pos)?;
        let (digest, next) = read_digest_at(hash_alg, buf, p)?;
        Ok((TpmtHa { hash_alg, digest }, next))
    }

    /// Reads a tagged digest from the front of `buf` and returns it with the
    /// bytes after it.
    pub fn unmarshal(buf: &[u8]) -> (r: TpmResult<(TpmtHa, &[u8])>)
        ensures
            match spec_read_ha(buf@, 0) {
                Ok((v, next)) => r matches Ok((w, rest)) && w@ == v && rest@ == buf@.subrange(next, buf@.len() as int),
                Err(e) => r == Err::<(TpmtHa, &[u8]), TpmError>(e),
            },
    {
        let (v, next) = TpmtHa::read_at(buf, 0)?;
        Ok((v, slice_subrange(buf, next, buf.len())))
    }

    /// Returns the number of wire bytes.
    pub fn len(&self) -> (r: usize)
        requires
            self@.digest.spec_bytes().len() <= 64,
        ensures
            r == self@.spec_bytes().len(),
    {
        2 + self.digest.len()
    }

    /// Appends the wire bytes.
    pub fn marshal(&self, buf: &mut Vec<u8>)
        ensures
            final(buf)@ == old(buf)@ + self@.spec_bytes(),
    {
        push_u16(buf, self.hash_alg.value());
        self.digest.marshal(buf);
        assert(buf@ =~= old(buf)@ + self@.spec_bytes());
    }
}

impl TpmsSignatureRsa {
    pub(crate) fn read_at(buf: &[u8], pos: usize) -> (r: TpmResult<(TpmsSignatureRsa, usize)>)
        requires
            pos <= buf@.len(),
        ensures
            match spec_read_rsa_signature(buf@, pos as int) {
                Ok((v, next)) => r matches Ok((w, q)) && w@ == v && q == next && pos <= next <= buf@.len(),
                Err(e) => r == Err::<(TpmsSignatureRsa, usize), TpmError>(e),
            },
    {
        let (hash, p) = read_alg_at(buf, pos)?;
        let (sig, next) = read_tpm2b_at(buf, p, MAX_RSA_KEY_BYTES)?;
        Ok((TpmsSignatureRsa { hash, sig }, next))
    }

    /// Returns the number of wire bytes.
    pub fn len(&self) -> (r: usize)
        requires
            self@.fits(),
        ensures
            r == self@.spec_bytes().len(),
    {
        4 + self.sig.len()
    }

    /// Appends the wire bytes.
    pub fn marshal(&self, buf: &mut Vec<u8>)
        ensures
            final(buf)@ == old(buf)@ + self@.spec_bytes(),
    {
        push_u16(buf, self.hash.value());
        push_tpm2b(buf, &self.sig);
        assert(buf@ =~= old(buf)@ + self@.spec_bytes());
    }
}

impl TpmsSignatureEcc {
    pub(crate) fn read_at(buf: &[u8], pos: usize) -> (r: TpmResult<(TpmsSignatureEcc, usize)>)
        requires
            pos <= buf@.len(),
        ensures
            match spec_read_ecc_signature(buf@, pos as int) {
                Ok((v, next)) => r matches Ok((w, q)) && w@ == v && q == next && pos <= next <= buf@.len(),
                Err(e) => r == Err::<(TpmsSignatureEcc, usize), TpmError>(e),
            },
    {
        let (hash, p1) = read_alg_at(buf, pos)?;
        let (signature_r, p2) = read_tpm2b_at(buf, p1, MAX_ECC_KEY_BYTES)?;
        let (signature_s, next) = read_tpm2b_at(buf, p2, MAX_ECC_KEY_BYTES)?;
        Ok((TpmsSignatureEcc { hash, signature_r, signature_s }, next))
    }

    /// Returns the number of wire bytes.
    pub fn len(&self) -> (r: usize)
        requires
            self@.fits(),
        ensures
            r == self@.spec_bytes().len(),
    {
        6 + self.signature_r.len() + self.signature_s.len()
    }

    /// Appends the wire bytes.
    pub fn marshal(&self, buf: &mut Vec<u8>)
        ensures
            final(buf)@ == old(buf)@ + self@.spec_bytes(),
    {
        push_u16(buf, self.hash.value());
        push_tpm2b(buf, &self.signature_r);
        push_tpm2b(buf, &self.signature_s);
        assert(buf@ =~= old(buf)@ + self@.spec_bytes());
    }
}

impl TpmuSignature {
    pub(crate) fn read_tagged_at(tag: TpmAlgId, buf: &[u8], pos: usize) -> (r: TpmResult<(TpmuSignature, usize)>)
        requires
            pos <= buf@.len(),
        ensures
            match spec_read_signature_member(tag, buf@, pos as int) {
                Ok((v, next)) => r matches Ok((w, q)) && w@ == v && q == next && pos <= next <= buf@.len(),
                Err(e) => r == Err::<(TpmuSignature, usize), TpmError>(e),
            },
    {
        match tag {
            TpmAlgId::Rsassa => {
                let (v, next) = TpmsSignatureRsa::read_at(buf, pos)?;
                Ok((TpmuSignature::Rsassa(v), next))
            },
            TpmAlgId::Rsapss => {
                let (v, next) = TpmsSignatureRsa::read_at(buf, pos)?;
                Ok((TpmuSignature::Rsapss(v), next))
            },
            TpmAlgId::Ecdsa => {
                let (v, next) = TpmsSignatureEcc::read_at(buf, pos)?;
                Ok((TpmuSignature::Ecdsa(v), next))
            },
            TpmAlgId::Ecdaa => {
                let (v, next) = TpmsSignatureEcc::read_at(buf, pos)?;
                Ok((TpmuSignature::Ecdaa(v), next))
            },
            TpmAlgId::Sm2 => {
                let (v, next) = TpmsSignatureEcc::read_at(buf, pos)?;
                Ok((TpmuSignature::Sm2(v), next))
            },
            TpmAlgId::Ecschnorr => {
                let (v, next) = TpmsSignatureEcc::read_at(buf, pos)?;
                Ok((TpmuSignature::Ecschnorr(v), next))
            },
            TpmAlgId::Hmac => {
                let (v, next) = TpmtHa::read_at(buf, pos)?;
                Ok((TpmuSignature::Hmac(v), next))
            },
            TpmAlgId::Null => Ok((TpmuSignature::Null, pos)),
            _ => Err(TpmError::VariantNotAvailable { offset: 0, value: tag.value() as u64 }),
        }
    }

    /// Reads the signature that the scheme `tag` selects from the front of
    /// `buf` and returns it with the bytes after it.
    pub fn cast_tagged(tag: TpmAlgId, buf: &[u8]) -> (r: TpmResult<(TpmuSignature, &[u8])>)
        ensures
            match spec_read_signature_member(tag, buf@, 0) {
                Ok((v, next)) => r matches Ok((w, rest)) && w@ == v && rest@ == buf@.subrange(next, buf@.len() as int),
                Err(e) => r == Err::<(TpmuSignature, &[u8]), TpmError>(e),
            },
    {
        let (v, next) = TpmuSignature::read_tagged_at(tag, buf, 0)?;
        Ok((v, slice_subrange(buf, next, buf.len())))
    }

    /// Returns the number of wire bytes.
    pub fn len(&self) -> (r: usize)
        requires
            self@.fits(),
        ensures
            r == self@.spec_bytes().len(),
    {
        match self {
            TpmuSignature::Rsassa(s) | TpmuSignature::Rsapss(s) => s.len(),
            TpmuSignature::Ecdsa(s) | TpmuSignature::Ecdaa(s) | TpmuSignature::Sm2(s)
            | TpmuSignature::Ecschnorr(s) => s.len(),
            TpmuSignature::Hmac(h) => h.len(),
            TpmuSignature::Null => 0,
        }
    }

    /// Appends the wire bytes.
    pub fn marshal(&self, buf: &mut Vec<u8>)
        ensures
            final(buf)@ == old(buf)@ + self@.spec_bytes(),
    {
        match self {
            TpmuSignature::Rsassa(s) | TpmuSignature::Rsapss(s) => s.marshal(buf),
            TpmuSignature::Ecdsa(s) | TpmuSignature::Ecdaa(s) | TpmuSignature::Sm2(s)
            | TpmuSignature::Ecschnorr(s) => s.marshal(buf),
            TpmuSignature::Hmac(h) => h.marshal(buf),
            TpmuSignature::Null => {
                assert(buf@ =~= old(buf)@ + self@.spec_bytes());
            },
        }
    }
}

impl TpmtSignature {
    pub(crate) fn read_at(buf: &[u8], pos: usize) -> (r: TpmResult<(TpmtSignature, usize)>)
        requires
            pos <= buf@.len(),
        ensures
            match spec_read_signature(buf@, pos as int) {
                Ok((v, next)) => r matches Ok((w, q)) && w@ == v && q == next && pos <= next <= buf@.len(),
                Err(e) => r == Err::<(TpmtSignature, usize), TpmError>(e),
            },
    {
        let (sig_alg, p) = read_alg_at(buf, pos)?;
        let (signature, next) = TpmuSignature::read_tagged_at(sig_alg, buf, p)?;
        Ok((TpmtSignature { sig_alg, signature }, next))
    }

    /// Reads a signature with its scheme from the front of `buf` and returns
    /// it with the bytes after it.
    pub fn unmarshal(buf: &[u8]) -> (r: TpmResult<(TpmtSignature, &[u8])>)
        ensures
            match spec_read_signature(buf@, 0) {
                Ok((v, next)) => r matches Ok((w, rest)) && w@ == v && rest@ == buf@.subrange(next, buf@.len() as int),
                Err(e) => r == Err::<(TpmtSignature, &[u8]), TpmError>(e),
            },
    {
        let (v, next) = TpmtSignature::read_at(buf, 0)?;
        Ok((v, slice_subrange(buf, next, buf.len())))
    }

    /// Returns the number of wire bytes.
    pub fn len(&self) -> (r: usize)
        requires
            self@.signature.fits(),
        ensures
            r == self@.spec_bytes().len(),
    {
        2 + self.signature.len()
    }

    /// Appends the wire bytes: the scheme, then the signature.
    pub fn marshal(&self, buf: &mut Vec<u8>)
        ensures
            final(buf)@ == old(buf)@ + self@.spec_bytes(),
    {
        push_u16(buf, self.sig_alg.value());
        self.signature.marshal(buf);
        assert(buf@ =~= old(buf)@ + self@.spec_bytes());
    }
}

// ---------------------------------------------------------------------------
// Reading back what was written
// ---------------------------------------------------------------------------

/// A well-formed tagged digest written at `pos` reads back.
pub proof fn lemma_read_ha_at(v: HaValue, s: Seq<u8>, pos: int)
    requires
        v.wf(),
        0 <= pos,
        pos + v.spec_bytes().len() <= s.len(),
        s.subrange(pos, pos + v.spec_bytes().len()) == v.spec_bytes(),
    ensures
        spec_read_ha(s, pos) == Ok::<(HaValue, int), TpmError>((v, pos + v.spec_bytes().len())),
{
    let a = spec_alg_bytes(v.hash_alg);
    let d = v.digest.spec_bytes();
    lemma_split_run(s, pos, a, d);
    lemma_read_alg_of_bytes(s, pos, v.hash_alg);
    if v.hash_alg != TpmAlgId::Null {
        assert(s.subrange(pos + 2, pos + 2 + d.len()) == d);
    }
}

/// An RSA signature that fits its buffer, written at `pos`, reads back.
pub proof fn lemma_read_rsa_signature_at(v: RsaSignatureValue, s: Seq<u8>, pos: int)
    requires
        v.fits(),
        0 <= pos,
        pos + v.spec_bytes().len() <= s.len(),
        s.subrange(pos, pos + v.spec_bytes().len()) == v.spec_bytes(),
    ensures
        spec_read_rsa_signature(s, pos) == Ok::<(RsaSignatureValue, int), TpmError>(
            (v, pos + v.spec_bytes().len()),
        ),
{
    let a = spec_alg_bytes(v.hash);
    let b = spec_tpm2b_bytes(v.sig);
    lemma_split_run(s, pos, a, b);
    lemma_read_alg_of_bytes(s, pos, v.hash);
    lemma_read_tpm2b_at(v.sig, MAX_RSA_KEY_BYTES, s, pos + 2);
}

/// An ECC signature that fits its buffers, written at `pos`, reads back.
pub proof fn lemma_read_ecc_signature_at(v: EccSignatureValue, s: Seq<u8>, pos: int)
    requires
        v.fits(),
        0 <= pos,
        pos + v.spec_bytes().len() <= s.len(),
        s.subrange(pos, pos + v.spec_bytes().len()) == v.spec_bytes(),
    ensures
        spec_read_ecc_signature(s, pos) == Ok::<(EccSignatureValue, int), TpmError>(
            (v, pos + v.spec_bytes().len()),
        ),
{
    let a = spec_alg_bytes(v.hash);
    let b = spec_tpm2b_bytes(v.signature_r);
    let c = spec_tpm2b_bytes(v.signature_s);
    lemma_split_run(s, pos, a + b, c);
    lemma_split_run(s, pos, a, b);
    lemma_read_alg_of_bytes(s, pos, v.hash);
    lemma_read_tpm2b_at(v.signature_r, MAX_ECC_KEY_BYTES, s, pos + 2);
    lemma_read_tpm2b_at(v.signature_s, MAX_ECC_KEY_BYTES, s, pos + 2 + b.len());
}

/// The signature that `tag` selects, written at `pos`, reads back.
pub proof fn lemma_read_signature_member_at(tag: TpmAlgId, v: SignatureValue, s: Seq<u8>, pos: int)
    requires
        signature_selects(tag, v),
        0 <= pos,
        pos + v.spec_bytes().len() <= s.len(),
        s.subrange(pos, pos + v.spec_bytes().len()) == v.spec_bytes(),
    ensures
        spec_read_signature_member(tag, s, pos) == Ok::<(SignatureValue, int), TpmError>(
            (v, pos + v.spec_bytes().len()),
        ),
{
    match v {
        SignatureValue::Rsassa(x) | SignatureValue::Rsapss(x) => lemma_read_rsa_signature_at(x, s, pos),
        SignatureValue::Ecdsa(x) | SignatureValue::Ecdaa(x) | SignatureValue::Sm2(x)
        | SignatureValue::Ecschnorr(x) => lemma_read_ecc_signature_at(x, s, pos),
        SignatureValue::Hmac(h) => lemma_read_ha_at(h, s, pos),
        SignatureValue::Null => {},
    }
}

/// Unmarshaling the bytes of a well-formed signature with its scheme,
/// followed by anything, gives it back and stops after its bytes.
pub proof fn lemma_signature_roundtrip(v: TaggedSignatureValue, rest: Seq<u8>)
    requires
        v.wf(),
    ensures
        spec_read_signature(v.spec_bytes() + rest, 0) == Ok::<(TaggedSignatureValue, int), TpmError>(
            (v, v.spec_bytes().len() as int),
        ),
{
    let s = v.spec_bytes() + rest;
    let a = spec_alg_bytes(v.sig_alg);
    let b = v.signature.spec_bytes();
    assert(s.subrange(0, v.spec_bytes().len() as int) =~= v.spec_bytes());
    lemma_split_run(s, 0, a, b);
    lemma_read_alg_of_bytes(s, 0, v.sig_alg);
    lemma_read_signature_member_at(v.sig_alg, v.signature, s, 2);
}

} // verus!
