//! Signing, encryption and key-derivation schemes (`TPMS_SCHEME_*`,
//! `TPMU_*_SCHEME`, `TPMT_*_SCHEME`).
//!
//! A union is selected by an algorithm tag that is stored before it: the
//! bytes of a union are those of its selected member, and the `Null` member
//! has none.

use crate::data::alg::TpmAlgId;
use crate::data::sym::{lemma_read_alg_of_bytes, read_alg_at, spec_read_alg};
use crate::error::{TpmError, TpmResult};
use crate::frame::codec::{lemma_split_run, push_u16, spec_be16_bytes};
use vstd::prelude::*;
use vstd::slice::slice_subrange;

verus! {

/// A scheme parameterised by a hash algorithm (`TPMS_SCHEME_HASH`).
#[derive(Debug, Clone, Copy, PartialEq, Eq, Structural)]
pub struct TpmsSchemeHash {
    pub hash_alg: TpmAlgId,
}

/// An HMAC scheme (`TPMS_SCHEME_HMAC`): a hash algorithm.
pub type TpmsSchemeHmac = TpmsSchemeHash;

/// A key derivation scheme (`TPMT_KDF_SCHEME`): its algorithm.
#[derive(Debug, Clone, Copy, PartialEq, Eq, Structural)]
pub struct TpmtKdfScheme {
    pub scheme: TpmAlgId,
}

/// The XOR obfuscation scheme (`TPMS_SCHEME_XOR`).
#[derive(Debug, Clone, Copy, PartialEq, Eq, Structural)]
pub struct TpmsSchemeXor {
    pub hash_alg: TpmAlgId,
    pub kdf: TpmtKdfScheme,
}

/// The details of an asymmetric scheme (`TPMU_ASYM_SCHEME`).
#[derive(Debug, Clone, Copy, PartialEq, Eq, Structural)]
pub enum TpmuAsymScheme {
    Hash(TpmsSchemeHash),
    Null,
}

/// The details of a keyed-hash scheme (`TPMU_SCHEME_KEYEDHASH`).
#[derive(Debug, Clone, Copy, PartialEq, Eq, Structural)]
pub enum TpmuKeyedhashScheme {
    Hmac(TpmsSchemeHash),
    Xor(TpmsSchemeXor),
    Null,
}

/// The details of a signature scheme (`TPMU_SIG_SCHEME`).
#[derive(Debug, Clone, Copy, PartialEq, Eq, Structural)]
pub enum TpmuSigScheme {
    Hash(TpmsSchemeHash),
    Hmac(TpmsSchemeHmac),
    Null,
}

/// The details of a key derivation scheme (`TPMU_KDF_SCHEME`).
#[derive(Debug, Clone, Copy, PartialEq, Eq, Structural)]
#[allow(non_camel_case_types)]
pub enum TpmuKdfScheme {
    Mgf1(TpmsSchemeHash),
    Kdf1Sp800_56a(TpmsSchemeHash),
    Kdf2(TpmsSchemeHash),
    Kdf1Sp800_108(TpmsSchemeHash),
    Null,
}

/// A keyed-hash scheme with its details (`TPMT_KEYEDHASH_SCHEME`).
#[derive(Debug, Clone, Copy, PartialEq, Eq, Structural)]
pub struct TpmtKeyedhashScheme {
    pub scheme: TpmAlgId,
    pub details: TpmuKeyedhashScheme,
}

/// An RSA scheme with its details (`TPMT_RSA_SCHEME`).
#[derive(Debug, Clone, Copy, PartialEq, Eq, Structural)]
pub struct TpmtRsaScheme {
    pub scheme: TpmAlgId,
    pub details: TpmuAsymScheme,
}

/// An ECC scheme with its details (`TPMT_ECC_SCHEME`).
#[derive(Debug, Clone, Copy, PartialEq, Eq, Structural)]
pub struct TpmtEccScheme {
    pub scheme: TpmAlgId,
    pub details: TpmuAsymScheme,
}

/// A signature scheme with its details (`TPMT_SIG_SCHEME`).
#[derive(Debug, Clone, Copy, PartialEq, Eq, Structural)]
pub struct TpmtSigScheme {
    pub scheme: TpmAlgId,
    pub details: TpmuSigScheme,
}

// ---------------------------------------------------------------------------
// Wire bytes
// ---------------------------------------------------------------------------

/// The wire bytes of an algorithm identifier.
pub open spec fn spec_alg_bytes(a: TpmAlgId) -> Seq<u8> {
    spec_be16_bytes(a.spec_value())
}

impl TpmsSchemeHash {
    pub open spec fn spec_bytes(self) -> Seq<u8> {
        spec_alg_bytes(self.hash_alg)
    }
}

impl TpmtKdfScheme {
    pub open spec fn spec_bytes(self) -> Seq<u8> {
        spec_alg_bytes(self.scheme)
    }
}

impl TpmsSchemeXor {
    pub open spec fn spec_bytes(self) -> Seq<u8> {
        spec_alg_bytes(self.hash_alg) + self.kdf.spec_bytes()
    }
}

impl TpmuAsymScheme {
    /// The bytes of the selected member; none for `Null`.
    pub open spec fn spec_bytes(self) -> Seq<u8> {
        match self {
            TpmuAsymScheme::Hash(h) => h.spec_bytes(),
            TpmuAsymScheme::Null => Seq::empty(),
        }
    }
}

impl TpmuKeyedhashScheme {
    /// The bytes of the selected member; none for `Null`.
    pub open spec fn spec_bytes(self) -> Seq<u8> {
        match self {
            TpmuKeyedhashScheme::Hmac(h) => h.spec_bytes(),
            TpmuKeyedhashScheme::Xor(x) => x.spec_bytes(),
            TpmuKeyedhashScheme::Null => Seq::empty(),
        }
    }
}

impl TpmuSigScheme {
    /// The bytes of the selected member; none for `Null`.
    pub open spec fn spec_bytes(self) -> Seq<u8> {
        match self {
            TpmuSigScheme::Hash(h) | TpmuSigScheme::Hmac(h) => h.spec_bytes(),
            TpmuSigScheme::Null => Seq::empty(),
        }
    }
}

impl TpmuKdfScheme {
    /// The bytes of the selected member; none for `Null`.
    pub open spec fn spec_bytes(self) -> Seq<u8> {
        match self {
            TpmuKdfScheme::Mgf1(h) | TpmuKdfScheme::Kdf1Sp800_56a(h) | TpmuKdfScheme::Kdf2(h)
            | TpmuKdfScheme::Kdf1Sp800_108(h) => h.spec_bytes(),
            TpmuKdfScheme::Null => Seq::empty(),
        }
    }
}

impl TpmtKeyedhashScheme {
    pub open spec fn spec_bytes(self) -> Seq<u8> {
        spec_alg_bytes(self.scheme) + self.details.spec_bytes()
    }

    /// The details are the member that the scheme selects.
    pub open spec fn wf(self) -> bool {
        keyedhash_selects(self.scheme, self.details)
    }
}

impl TpmtRsaScheme {
    pub open spec fn spec_bytes(self) -> Seq<u8> {
        spec_alg_bytes(self.scheme) + self.details.spec_bytes()
    }

    /// The details are the member that the scheme selects.
    pub open spec fn wf(self) -> bool {
        asym_selects(self.scheme, self.details)
    }
}

impl TpmtEccScheme {
    pub open spec fn spec_bytes(self) -> Seq<u8> {
        spec_alg_bytes(self.scheme) + self.details.spec_bytes()
    }

    /// The details are the member that the scheme selects.
    pub open spec fn wf(self) -> bool {
        asym_selects(self.scheme, self.details)
    }
}

impl TpmtSigScheme {
    pub open spec fn spec_bytes(self) -> Seq<u8> {
        spec_alg_bytes(self.scheme) + self.details.spec_bytes()
    }

    /// The details are the member that the scheme selects.
    pub open spec fn wf(self) -> bool {
        sig_selects(self.scheme, self.details)
    }
}

// ---------------------------------------------------------------------------
// Which member a tag selects
// ---------------------------------------------------------------------------

/// The asymmetric schemes whose details are a hash algorithm.
pub open spec fn is_asym_hash_scheme(tag: TpmAlgId) -> bool {
    tag == TpmAlgId::Rsassa || tag == TpmAlgId::Rsapss || tag == TpmAlgId::Ecdsa || tag
        == TpmAlgId::Ecdaa || tag == TpmAlgId::Sm2 || tag == TpmAlgId::Ecschnorr || tag
        == TpmAlgId::Oaep || tag == TpmAlgId::Ecdh || tag == TpmAlgId::Ecmqv
}

/// The signature schemes whose details are a hash algorithm.
pub open spec fn is_sig_hash_scheme(tag: TpmAlgId) -> bool {
    tag == TpmAlgId::Rsassa || tag == TpmAlgId::Rsapss || tag == TpmAlgId::Ecdsa || tag
        == TpmAlgId::Ecdaa || tag == TpmAlgId::Sm2 || tag == TpmAlgId::Ecschnorr
}

/// `d` is the member of `TPMU_ASYM_SCHEME` that `tag` selects.
pub open spec fn asym_selects(tag: TpmAlgId, d: TpmuAsymScheme) -> bool {
    if is_asym_hash_scheme(tag) {
        d is Hash
    } else {
        (tag == TpmAlgId::Rsaes || tag == TpmAlgId::Null) && d is Null
    }
}

/// `d` is the member of `TPMU_SCHEME_KEYEDHASH` that `tag` selects.
pub open spec fn keyedhash_selects(tag: TpmAlgId, d: TpmuKeyedhashScheme) -> bool {
    match tag {
        TpmAlgId::Hmac => d is Hmac,
        TpmAlgId::Xor => d is Xor,
        TpmAlgId::Null => d is Null,
        _ => false,
    }
}

/// `d` is the member of `TPMU_SIG_SCHEME` that `tag` selects.
pub open spec fn sig_selects(tag: TpmAlgId, d: TpmuSigScheme) -> bool {
    if is_sig_hash_scheme(tag) {
        d is Hash
    } else {
        match tag {
            TpmAlgId::Hmac => d is Hmac,
            TpmAlgId::Null => d is Null,
            _ => false,
        }
    }
}

/// `d` is the member of `TPMU_KDF_SCHEME` that `tag` selects.
pub open spec fn kdf_selects(tag: TpmAlgId, d: TpmuKdfScheme) -> bool {
    match tag {
        TpmAlgId::Mgf1 => d is Mgf1,
        TpmAlgId::Kdf1Sp800_56A => d is Kdf1Sp800_56a,
        TpmAlgId::Kdf2 => d is Kdf2,
        TpmAlgId::Kdf1Sp800_108 => d is Kdf1Sp800_108,
        TpmAlgId::Null => d is Null,
        _ => false,
    }
}

/// The error for a tag that selects no member of a union.
pub open spec fn spec_no_member(tag: TpmAlgId) -> TpmError {
    TpmError::VariantNotAvailable { offset: 0, value: tag.spec_value() as u64 }
}

// ---------------------------------------------------------------------------
// Reading, as spec functions over the bytes `s` from `pos`
// ---------------------------------------------------------------------------

/// Reads a hash scheme at `pos`.
pub open spec fn spec_read_scheme_hash(s: Seq<u8>, pos: int) -> TpmResult<(TpmsSchemeHash, int)> {
    match spec_read_alg(s, pos) {
        Err(e) => Err(e),
        Ok((a, next)) => Ok((TpmsSchemeHash { hash_alg: a }, next)),
    }
}

/// Reads a key derivation scheme at `pos`.
pub open spec fn spec_read_kdf_scheme(s: Seq<u8>, pos: int) -> TpmResult<(TpmtKdfScheme, int)> {
    match spec_read_alg(s, pos) {
        Err(e) => Err(e),
        Ok((a, next)) => Ok((TpmtKdfScheme { scheme: a }, next)),
    }
}

/// Reads an XOR scheme at `pos`: a hash algorithm, then a key derivation
/// scheme.
pub open spec fn spec_read_scheme_xor(s: Seq<u8>, pos: int) -> TpmResult<(TpmsSchemeXor, int)> {
    match spec_read_alg(s, pos) {
        Err(e) => Err(e),
        Ok((hash_alg, p)) => match spec_read_kdf_scheme(s, p) {
            Err(e) => Err(e),
            Ok((kdf, next)) => Ok((TpmsSchemeXor { hash_alg, kdf }, next)),
        },
    }
}

/// Reads the member of `TPMU_ASYM_SCHEME` that `tag` selects.
pub open spec fn spec_read_asym_details(tag: TpmAlgId, s: Seq<u8>, pos: int) -> TpmResult<(TpmuAsymScheme, int)> {
    if is_asym_hash_scheme(tag) {
        match spec_read_scheme_hash(s, pos) {
            Err(e) => Err(e),
            Ok((h, next)) => Ok((TpmuAsymScheme::Hash(h), next)),
        }
    } else if tag == TpmAlgId::Rsaes || tag == TpmAlgId::Null {
        Ok((TpmuAsymScheme::Null, pos))
    } else {
        Err(spec_no_member(tag))
    }
}

/// Reads the member of `TPMU_SCHEME_KEYEDHASH` that `tag` selects.
pub open spec fn spec_read_keyedhash_details(tag: TpmAlgId, s: Seq<u8>, pos: int) -> TpmResult<
    (TpmuKeyedhashScheme, int),
> {
    match tag {
        TpmAlgId::Hmac => match spec_read_scheme_hash(s, pos) {
            Err(e) => Err(e),
            Ok((h, next)) => Ok((TpmuKeyedhashScheme::Hmac(h), next)),
        },
        TpmAlgId::Xor => match spec_read_scheme_xor(s, pos) {
            Err(e) => Err(e),
            Ok((x, next)) => Ok((TpmuKeyedhashScheme::Xor(x), next)),
        },
        TpmAlgId::Null => Ok((TpmuKeyedhashScheme::Null, pos)),
        _ => Err(spec_no_member(tag)),
    }
}

/// Reads the member of `TPMU_SIG_SCHEME` that `tag` selects.
pub open spec fn spec_read_sig_details(tag: TpmAlgId, s: Seq<u8>, pos: int) -> TpmResult<(TpmuSigScheme, int)> {
    if is_sig_hash_scheme(tag) {
        match spec_read_scheme_hash(s, pos) {
            Err(e) => Err(e),
            Ok((h, next)) => Ok((TpmuSigScheme::Hash(h), next)),
        }
    } else if tag == TpmAlgId::Hmac {
        match spec_read_scheme_hash(s, pos) {
            Err(e) => Err(e),
            Ok((h, next)) => Ok((TpmuSigScheme::Hmac(h), next)),
        }
    } else if tag == TpmAlgId::Null {
        Ok((TpmuSigScheme::Null, pos))
    } else {
        Err(spec_no_member(tag))
    }
}

/// Reads the member of `TPMU_KDF_SCHEME` that `tag` selects.
pub open spec fn spec_read_kdf_details(tag: TpmAlgId, s: Seq<u8>, pos: int) -> TpmResult<(TpmuKdfScheme, int)> {
    if tag == TpmAlgId::Null {
        Ok((TpmuKdfScheme::Null, pos))
    } else if tag == TpmAlgId::Mgf1 || tag == TpmAlgId::Kdf1Sp800_56A || tag == TpmAlgId::Kdf2 || tag
        == TpmAlgId::Kdf1Sp800_108 {
        match spec_read_scheme_hash(s, pos) {
            Err(e) => Err(e),
            Ok((h, next)) => Ok((
                match tag {
                    TpmAlgId::Mgf1 => TpmuKdfScheme::Mgf1(h),
                    TpmAlgId::Kdf1Sp800_56A => TpmuKdfScheme::Kdf1Sp800_56a(h),
                    TpmAlgId::Kdf2 => TpmuKdfScheme::Kdf2(h),
                    _ => TpmuKdfScheme::Kdf1Sp800_108(h),
                },
                next,
            )),
        }
    } else {
        Err(spec_no_member(tag))
    }
}

/// Reads a keyed-hash scheme at `pos`: the scheme, then the member it selects.
pub open spec fn spec_read_keyedhash_scheme(s: Seq<u8>, pos: int) -> TpmResult<(TpmtKeyedhashScheme, int)> {
    match spec_read_alg(s, pos) {
        Err(e) => Err(e),
        Ok((scheme, p)) => match spec_read_keyedhash_details(scheme, s, p) {
            Err(e) => Err(e),
            Ok((details, next)) => Ok((TpmtKeyedhashScheme { scheme, details }, next)),
        },
    }
}

/// Reads an RSA scheme at `pos`: the scheme, then the member it selects.
pub open spec fn spec_read_rsa_scheme(s: Seq<u8>, pos: int) -> TpmResult<(TpmtRsaScheme, int)> {
    match spec_read_alg(s, pos) {
        Err(e) => Err(e),
        Ok((scheme, p)) => match spec_read_asym_details(scheme, s, p) {
            Err(e) => Err(e),
            Ok((details, next)) => Ok((TpmtRsaScheme { scheme, details }, next)),
        },
    }
}

/// Reads an ECC scheme at `pos`: the scheme, then the member it selects.
pub open spec fn spec_read_ecc_scheme(s: Seq<u8>, pos: int) -> TpmResult<(TpmtEccScheme, int)> {
    match spec_read_alg(s, pos) {
        Err(e) => Err(e),
        Ok((scheme, p)) => match spec_read_asym_details(scheme, s, p) {
            Err(e) => Err(e),
            Ok((details, next)) => Ok((TpmtEccScheme { scheme, details }, next)),
        },
    }
}

/// Reads a signature scheme at `pos`: the scheme, then the member it selects.
pub open spec fn spec_read_sig_scheme(s: Seq<u8>, pos: int) -> TpmResult<(TpmtSigScheme, int)> {
    match spec_read_alg(s, pos) {
        Err(e) => Err(e),
        Ok((scheme, p)) => match spec_read_sig_details(scheme, s, p) {
            Err(e) => Err(e),
            Ok((details, next)) => Ok((TpmtSigScheme { scheme, details }, next)),
        },
    }
}

// ---------------------------------------------------------------------------
// Executable reading, writing and sizes
// ---------------------------------------------------------------------------

/// Reads a hash scheme at `pos`.
pub(crate) fn read_scheme_hash_at(buf: &[u8], pos: usize) -> (r: TpmResult<(TpmsSchemeHash, usize)>)
    requires
        pos <= buf@.len(),
    ensures
            match spec_read_scheme_hash(buf@, pos as int) {
                Ok((v, next)) => r matches Ok((w, q)) && w == v && q == next && pos <= next <= buf@.len(),
                Err(e) => r == Err::<(TpmsSchemeHash, usize), TpmError>(e),
            },
{
    let (a, next) = read_alg_at(buf, pos)?;
    Ok((TpmsSchemeHash { hash_alg: a }, next))
}

/// Reads a key derivation scheme at `pos`.
pub(crate) fn read_kdf_scheme_at(buf: &[u8], pos: usize) -> (r: TpmResult<(TpmtKdfScheme, usize)>)
    requires
        pos <= buf@.len(),
    ensures
            match spec_read_kdf_scheme(buf@, pos as int) {
                Ok((v, next)) => r matches Ok((w, q)) && w == v && q == next && pos <= next <= buf@.len(),
                Err(e) => r == Err::<(TpmtKdfScheme, usize), TpmError>(e),
            },
{
    let (a, next) = read_alg_at(buf, pos)?;
    Ok((TpmtKdfScheme { scheme: a }, next))
}

/// Reads an XOR scheme at `pos`.
pub(crate) fn read_scheme_xor_at(buf: &[u8], pos: usize) -> (r: TpmResult<(TpmsSchemeXor, usize)>)
    requires
        pos <= buf@.len(),
    ensures
            match spec_read_scheme_xor(buf@, pos as int) {
                Ok((v, next)) => r matches Ok((w, q)) && w == v && q == next && pos <= next <= buf@.len(),
                Err(e) => r == Err::<(TpmsSchemeXor, usize), TpmError>(e),
            },
{
    let (hash_alg, p) = read_alg_at(buf, pos)?;
    let (kdf, next) = read_kdf_scheme_at(buf, p)?;
    Ok((TpmsSchemeXor { hash_alg, kdf }, next))
}

impl TpmsSchemeHash {
    /// Returns the number of wire bytes.
    pub fn len(&self) -> (r: usize)
        ensures
            r == self.spec_bytes().len(),
    {
        2
    }

    /// Appends the wire bytes.
    pub fn marshal(&self, buf: &mut Vec<u8>)
        ensures
            final(buf)@ == old(buf)@ + self.spec_bytes(),
    {
        push_u16(buf, self.hash_alg.value());
    }
}

impl TpmtKdfScheme {
    /// Returns the number of wire bytes.
    pub fn len(&self) -> (r: usize)
        ensures
            r == self.spec_bytes().len(),
    {
        2
    }

    /// Appends the wire bytes.
    pub fn marshal(&self, buf: &mut Vec<u8>)
        ensures
            final(buf)@ == old(buf)@ + self.spec_bytes(),
    {
        push_u16(buf, self.scheme.value());
    }
}

impl TpmsSchemeXor {
    /// Returns the number of wire bytes.
    pub fn len(&self) -> (r: usize)
        ensures
            r == self.spec_bytes().len(),
    {
        4
    }

    /// Appends the wire bytes.
    pub fn marshal(&self, buf: &mut Vec<u8>)
        ensures
            final(buf)@ == old(buf)@ + self.spec_bytes(),
    {
        push_u16(buf, self.hash_alg.value());
        push_u16(buf, self.kdf.scheme.value());
        assert(buf@ =~= old(buf)@ + self.spec_bytes());
    }
}

impl TpmuAsymScheme {
    pub(crate) fn read_tagged_at(tag: TpmAlgId, buf: &[u8], pos: usize) -> (r: TpmResult<(TpmuAsymScheme, usize)>)
        requires
            pos <= buf@.len(),
        ensures
            match spec_read_asym_details(tag, buf@, pos as int) {
                Ok((v, next)) => r matches Ok((w, q)) && w == v && q == next && pos <= next <= buf@.len(),
                Err(e) => r == Err::<(TpmuAsymScheme, usize), TpmError>(e),
            },
    {
        match tag {
            TpmAlgId::Rsassa | TpmAlgId::Rsapss | TpmAlgId::Ecdsa | TpmAlgId::Ecdaa | TpmAlgId::Sm2
            | TpmAlgId::Ecschnorr | TpmAlgId::Oaep | TpmAlgId::Ecdh | TpmAlgId::Ecmqv => {
                let (h, next) = read_scheme_hash_at(buf, pos)?;
                Ok((TpmuAsymScheme::Hash(h), next))
            },
            TpmAlgId::Rsaes | TpmAlgId::Null => Ok((TpmuAsymScheme::Null, pos)),
            _ => Err(TpmError::VariantNotAvailable { offset: 0, value: tag.value() as u64 }),
        }
    }

    /// Reads the member that `tag` selects from the front of `buf` and returns
    /// it with the bytes after it.
    pub fn cast_tagged(tag: TpmAlgId, buf: &[u8]) -> (r: TpmResult<(TpmuAsymScheme, &[u8])>)
        ensures
            match spec_read_asym_details(tag, buf@, 0) {
                Ok((v, next)) => r matches Ok((w, rest)) && w == v && rest@ == buf@.subrange(next, buf@.len() as int),
                Err(e) => r == Err::<(TpmuAsymScheme, &[u8]), TpmError>(e),
            },
    {
        let (v, next) = TpmuAsymScheme::read_tagged_at(tag, buf, 0)?;
        Ok((v, slice_subrange(buf, next, buf.len())))
    }

    /// Returns the number of wire bytes.
    pub fn len(&self) -> (r: usize)
        ensures
            r == self.spec_bytes().len(),
    {
        match self {
            TpmuAsymScheme::Hash(_) => 2,
            TpmuAsymScheme::Null => 0,
        }
    }

    /// Appends the wire bytes.
    pub fn marshal(&self, buf: &mut Vec<u8>)
        ensures
            final(buf)@ == old(buf)@ + self.spec_bytes(),
    {
        match self {
            TpmuAsymScheme::Hash(h) => h.marshal(buf),
            TpmuAsymScheme::Null => {
                assert(buf@ =~= old(buf)@ + self.spec_bytes());
            },
        }
    }
}

impl TpmuKeyedhashScheme {
    pub(crate) fn read_tagged_at(tag: TpmAlgId, buf: &[u8], pos: usize) -> (r: TpmResult<(TpmuKeyedhashScheme, usize)>)
        requires
            pos <= buf@.len(),
        ensures
            match spec_read_keyedhash_details(tag, buf@, pos as int) {
                Ok((v, next)) => r matches Ok((w, q)) && w == v && q == next && pos <= next <= buf@.len(),
                Err(e) => r == Err::<(TpmuKeyedhashScheme, usize), TpmError>(e),
            },
    {
        match tag {
            TpmAlgId::Hmac => {
                let (h, next) = read_scheme_hash_at(buf, pos)?;
                Ok((TpmuKeyedhashScheme::Hmac(h), next))
            },
            TpmAlgId::Xor => {
                let (x, next) = read_scheme_xor_at(buf, pos)?;
                Ok((TpmuKeyedhashScheme::Xor(x), next))
            },
            TpmAlgId::Null => Ok((TpmuKeyedhashScheme::Null, pos)),
            _ => Err(TpmError::VariantNotAvailable { offset: 0, value: tag.value() as u64 }),
        }
    }

    /// Reads the member that `tag` selects from the front of `buf` and returns
    /// it with the bytes after it.
    pub fn cast_tagged(tag: TpmAlgId, buf: &[u8]) -> (r: TpmResult<(TpmuKeyedhashScheme, &[u8])>)
        ensures
            match spec_read_keyedhash_details(tag, buf@, 0) {
                Ok((v, next)) => r matches Ok((w, rest)) && w == v && rest@ == buf@.subrange(next, buf@.len() as int),
                Err(e) => r == Err::<(TpmuKeyedhashScheme, &[u8]), TpmError>(e),
            },
    {
        let (v, next) = TpmuKeyedhashScheme::read_tagged_at(tag, buf, 0)?;
        Ok((v, slice_subrange(buf, next, buf.len())))
    }

    /// Returns the number of wire bytes.
    pub fn len(&self) -> (r: usize)
        ensures
            r == self.spec_bytes().len(),
    {
        match self {
            TpmuKeyedhashScheme::Hmac(_) => 2,
            TpmuKeyedhashScheme::Xor(_) => 4,
            TpmuKeyedhashScheme::Null => 0,
        }
    }

    /// Appends the wire bytes.
    pub fn marshal(&self, buf: &mut Vec<u8>)
        ensures
            final(buf)@ == old(buf)@ + self.spec_bytes(),
    {
        match self {
            TpmuKeyedhashScheme::Hmac(h) => h.marshal(buf),
            TpmuKeyedhashScheme::Xor(x) => x.marshal(buf),
            TpmuKeyedhashScheme::Null => {
                assert(buf@ =~= old(buf)@ + self.spec_bytes());
            },
        }
    }
}

impl TpmuSigScheme {
    pub(crate) fn read_tagged_at(tag: TpmAlgId, buf: &[u8], pos: usize) -> (r: TpmResult<(TpmuSigScheme, usize)>)
        requires
            pos <= buf@.len(),
        ensures
            match spec_read_sig_details(tag, buf@, pos as int) {
                Ok((v, next)) => r matches Ok((w, q)) && w == v && q == next && pos <= next <= buf@.len(),
                Err(e) => r == Err::<(TpmuSigScheme, usize), TpmError>(e),
            },
    {
        match tag {
            TpmAlgId::Rsassa | TpmAlgId::Rsapss | TpmAlgId::Ecdsa | TpmAlgId::Ecdaa | TpmAlgId::Sm2
            | TpmAlgId::Ecschnorr => {
                let (h, next) = read_scheme_hash_at(buf, pos)?;
                Ok((TpmuSigScheme::Hash(h), next))
            },
            TpmAlgId::Hmac => {
                let (h, next) = read_scheme_hash_at(buf, pos)?;
                Ok((TpmuSigScheme::Hmac(h), next))
            },
            TpmAlgId::Null => Ok((TpmuSigScheme::Null, pos)),
            _ => Err(TpmError::VariantNotAvailable { offset: 0, value: tag.value() as u64 }),
        }
    }

    /// Reads the member that `tag` selects from the front of `buf` and returns
    /// it with the bytes after it.
    pub fn cast_tagged(tag: TpmAlgId, buf: &[u8]) -> (r: TpmResult<(TpmuSigScheme, &[u8])>)
        ensures
            match spec_read_sig_details(tag, buf@, 0) {
                Ok((v, next)) => r matches Ok((w, rest)) && w == v && rest@ == buf@.subrange(next, buf@.len() as int),
                Err(e) => r == Err::<(TpmuSigScheme, &[u8]), TpmError>(e),
            },
    {
        let (v, next) = TpmuSigScheme::read_tagged_at(tag, buf, 0)?;
        Ok((v, slice_subrange(buf, next, buf.len())))
    }

    /// Returns the number of wire bytes.
    pub fn len(&self) -> (r: usize)
        ensures
            r == self.spec_bytes().len(),
    {
        match self {
            TpmuSigScheme::Hash(_) | TpmuSigScheme::Hmac(_) => 2,
            TpmuSigScheme::Null => 0,
        }
    }

    /// Appends the wire bytes.
    pub fn marshal(&self, buf: &mut Vec<u8>)
        ensures
            final(buf)@ == old(buf)@ + self.spec_bytes(),
    {
        match self {
            TpmuSigScheme::Hash(h) | TpmuSigScheme::Hmac(h) => h.marshal(buf),
            TpmuSigScheme::Null => {
                assert(buf@ =~= old(buf)@ + self.spec_bytes());
            },
        }
    }
}

impl TpmuKdfScheme {
    pub(crate) fn read_tagged_at(tag: TpmAlgId, buf: &[u8], pos: usize) -> (r: TpmResult<(TpmuKdfScheme, usize)>)
        requires
            pos <= buf@.len(),
        ensures
            match spec_read_kdf_details(tag, buf@, pos as int) {
                Ok((v, next)) => r matches Ok((w, q)) && w == v && q == next && pos <= next <= buf@.len(),
                Err(e) => r == Err::<(TpmuKdfScheme, usize), TpmError>(e),
            },
    {
        match tag {
            TpmAlgId::Null => Ok((TpmuKdfScheme::Null, pos)),
            TpmAlgId::Mgf1 => {
                let (h, next) = read_scheme_hash_at(buf, pos)?;
                Ok((TpmuKdfScheme::Mgf1(h), next))
            },
            TpmAlgId::Kdf1Sp800_56A => {
                let (h, next) = read_scheme_hash_at(buf, pos)?;
                Ok((TpmuKdfScheme::Kdf1Sp800_56a(h), next))
            },
            TpmAlgId::Kdf2 => {
                let (h, next) = read_scheme_hash_at(buf, pos)?;
                Ok((TpmuKdfScheme::Kdf2(h), next))
            },
            TpmAlgId::Kdf1Sp800_108 => {
                let (h, next) = read_scheme_hash_at(buf, pos)?;
                Ok((TpmuKdfScheme::Kdf1Sp800_108(h), next))
            },
            _ => Err(TpmError::VariantNotAvailable { offset: 0, value: tag.value() as u64 }),
        }
    }

    /// Reads the member that `tag` selects from the front of `buf` and returns
    /// it with the bytes after it.
    pub fn cast_tagged(tag: TpmAlgId, buf: &[u8]) -> (r: TpmResult<(TpmuKdfScheme, &[u8])>)
        ensures
            match spec_read_kdf_details(tag, buf@, 0) {
                Ok((v, next)) => r matches Ok((w, rest)) && w == v && rest@ == buf@.subrange(next, buf@.len() as int),
                Err(e) => r == Err::<(TpmuKdfScheme, &[u8]), TpmError>(e),
            },
    {
        let (v, next) = TpmuKdfScheme::read_tagged_at(tag, buf, 0)?;
        Ok((v, slice_subrange(buf, next, buf.len())))
    }

    /// Returns the number of wire bytes.
    pub fn len(&self) -> (r: usize)
        ensures
            r == self.spec_bytes().len(),
    {
        match self {
            TpmuKdfScheme::Null => 0,
            _ => 2,
        }
    }

    /// Appends the wire bytes.
    pub fn marshal(&self, buf: &mut Vec<u8>)
        ensures
            final(buf)@ == old(buf)@ + self.spec_bytes(),
    {
        match self {
            TpmuKdfScheme::Mgf1(h) | TpmuKdfScheme::Kdf1Sp800_56a(h) | TpmuKdfScheme::Kdf2(h)
            | TpmuKdfScheme::Kdf1Sp800_108(h) => h.marshal(buf),
            TpmuKdfScheme::Null => {
                assert(buf@ =~= old(buf)@ + self.spec_bytes());
            },
        }
    }
}

impl TpmtKeyedhashScheme {
    pub(crate) fn read_at(buf: &[u8], pos: usize) -> (r: TpmResult<(TpmtKeyedhashScheme, usize)>)
        requires
            pos <= buf@.len(),
        ensures
            match spec_read_keyedhash_scheme(buf@, pos as int) {
                Ok((v, next)) => r matches Ok((w, q)) && w == v && q == next && pos <= next <= buf@.len(),
                Err(e) => r == Err::<(TpmtKeyedhashScheme, usize), TpmError>(e),
            },
    {
        let (scheme, p) = read_alg_at(buf, pos)?;
        let (details, next) = TpmuKeyedhashScheme::read_tagged_at(scheme, buf, p)?;
        Ok((TpmtKeyedhashScheme { scheme, details }, next))
    }

    /// Reads a keyed-hash scheme from the front of `buf` and returns it with
    /// the bytes after it.
    pub fn unmarshal(buf: &[u8]) -> (r: TpmResult<(TpmtKeyedhashScheme, &[u8])>)
        ensures
            match spec_read_keyedhash_scheme(buf@, 0) {
                Ok((v, next)) => r matches Ok((w, rest)) && w == v && rest@ == buf@.subrange(next, buf@.len() as int),
                Err(e) => r == Err::<(TpmtKeyedhashScheme, &[u8]), TpmError>(e),
            },
    {
        let (v, next) = TpmtKeyedhashScheme::read_at(buf, 0)?;
        Ok((v, slice_subrange(buf, next, buf.len())))
    }

    /// Returns the number of wire bytes.
    pub fn len(&self) -> (r: usize)
        ensures
            r == self.spec_bytes().len(),
    {
        2 + self.details.len()
    }

    /// Appends the wire bytes: the scheme, then its details.
    pub fn marshal(&self, buf: &mut Vec<u8>)
        ensures
            final(buf)@ == old(buf)@ + self.spec_bytes(),
    {
        push_u16(buf, self.scheme.value());
        self.details.marshal(buf);
        assert(buf@ =~= old(buf)@ + self.spec_bytes());
    }
}

impl TpmtRsaScheme {
    pub(crate) fn read_at(buf: &[u8], pos: usize) -> (r: TpmResult<(TpmtRsaScheme, usize)>)
        requires
            pos <= buf@.len(),
        ensures
            match spec_read_rsa_scheme(buf@, pos as int) {
                Ok((v, next)) => r matches Ok((w, q)) && w == v && q == next && pos <= next <= buf@.len(),
                Err(e) => r == Err::<(TpmtRsaScheme, usize), TpmError>(e),
            },
    {
        let (scheme, p) = read_alg_at(buf, pos)?;
        let (details, next) = TpmuAsymScheme::read_tagged_at(scheme, buf, p)?;
        Ok((TpmtRsaScheme { scheme, details }, next))
    }

    /// Reads an RSA scheme from the front of `buf` and returns it with
    /// the bytes after it.
    pub fn unmarshal(buf: &[u8]) -> (r: TpmResult<(TpmtRsaScheme, &[u8])>)
        ensures
            match spec_read_rsa_scheme(buf@, 0) {
                Ok((v, next)) => r matches Ok((w, rest)) && w == v && rest@ == buf@.subrange(next, buf@.len() as int),
                Err(e) => r == Err::<(TpmtRsaScheme, &[u8]), TpmError>(e),
            },
    {
        let (v, next) = TpmtRsaScheme::read_at(buf, 0)?;
        Ok((v, slice_subrange(buf, next, buf.len())))
    }

    /// Returns the number of wire bytes.
    pub fn len(&self) -> (r: usize)
        ensures
            r == self.spec_bytes().len(),
    {
        2 + self.details.len()
    }

    /// Appends the wire bytes: the scheme, then its details.
    pub fn marshal(&self, buf: &mut Vec<u8>)
        ensures
            final(buf)@ == old(buf)@ + self.spec_bytes(),
    {
        push_u16(buf, self.scheme.value());
        self.details.marshal(buf);
        assert(buf@ =~= old(buf)@ + self.spec_bytes());
    }
}

impl TpmtEccScheme {
    pub(crate) fn read_at(buf: &[u8], pos: usize) -> (r: TpmResult<(TpmtEccScheme, usize)>)
        requires
            pos <= buf@.len(),
        ensures
            match spec_read_ecc_scheme(buf@, pos as int) {
                Ok((v, next)) => r matches Ok((w, q)) && w == v && q == next && pos <= next <= buf@.len(),
                Err(e) => r == Err::<(TpmtEccScheme, usize), TpmError>(e),
            },
    {
        let (scheme, p) = read_alg_at(buf, pos)?;
        let (details, next) = TpmuAsymScheme::read_tagged_at(scheme, buf, p)?;
        Ok((TpmtEccScheme { scheme, details }, next))
    }

    /// Reads an ECC scheme from the front of `buf` and returns it with
    /// the bytes after it.
    pub fn unmarshal(buf: &[u8]) -> (r: TpmResult<(TpmtEccScheme, &[u8])>)
        ensures
            match spec_read_ecc_scheme(buf@, 0) {
                Ok((v, next)) => r matches Ok((w, rest)) && w == v && rest@ == buf@.subrange(next, buf@.len() as int),
                Err(e) => r == Err::<(TpmtEccScheme, &[u8]), TpmError>(e),
            },
    {
        let (v, next) = TpmtEccScheme::read_at(buf, 0)?;
        Ok((v, slice_subrange(buf, next, buf.len())))
    }

    /// Returns the number of wire bytes.
    pub fn len(&self) -> (r: usize)
        ensures
            r == self.spec_bytes().len(),
    {
        2 + self.details.len()
    }

    /// Appends the wire bytes: the scheme, then its details.
    pub fn marshal(&self, buf: &mut Vec<u8>)
        ensures
            final(buf)@ == old(buf)@ + self.spec_bytes(),
    {
        push_u16(buf, self.scheme.value());
        self.details.marshal(buf);
        assert(buf@ =~= old(buf)@ + self.spec_bytes());
    }
}

impl TpmtSigScheme {
    pub(crate) fn read_at(buf: &[u8], pos: usize) -> (r: TpmResult<(TpmtSigScheme, usize)>)
        requires
            pos <= buf@.len(),
        ensures
            match spec_read_sig_scheme(buf@, pos as int) {
                Ok((v, next)) => r matches Ok((w, q)) && w == v && q == next && pos <= next <= buf@.len(),
                Err(e) => r == Err::<(TpmtSigScheme, usize), TpmError>(e),
            },
    {
        let (scheme, p) = read_alg_at(buf, pos)?;
        let (details, next) = TpmuSigScheme::read_tagged_at(scheme, buf, p)?;
        Ok((TpmtSigScheme { scheme, details }, next))
    }

    /// Reads a signature scheme from the front of `buf` and returns it with
    /// the bytes after it.
    pub fn unmarshal(buf: &[u8]) -> (r: TpmResult<(TpmtSigScheme, &[u8])>)
        ensures
            match spec_read_sig_scheme(buf@, 0) {
                Ok((v, next)) => r matches Ok((w, rest)) && w == v && rest@ == buf@.subrange(next, buf@.len() as int),
                Err(e) => r == Err::<(TpmtSigScheme, &[u8]), TpmError>(e),
            },
    {
        let (v, next) = TpmtSigScheme::read_at(buf, 0)?;
        Ok((v, slice_subrange(buf, next, buf.len())))
    }

    /// Returns the number of wire bytes.
    pub fn len(&self) -> (r: usize)
        ensures
            r == self.spec_bytes().len(),
    {
        2 + self.details.len()
    }

    /// Appends the wire bytes: the scheme, then its details.
    pub fn marshal(&self, buf: &mut Vec<u8>)
        ensures
            final(buf)@ == old(buf)@ + self.spec_bytes(),
    {
        push_u16(buf, self.scheme.value());
        self.details.marshal(buf);
        assert(buf@ =~= old(buf)@ + self.spec_bytes());
    }
}

// ---------------------------------------------------------------------------
// Reading back what was written
// ---------------------------------------------------------------------------

/// A hash scheme written at `pos` reads back.
pub proof fn lemma_read_scheme_hash_at(v: TpmsSchemeHash, s: Seq<u8>, pos: int)
    requires
        0 <= pos,
        pos + v.spec_bytes().len() <= s.len(),
        s.subrange(pos, pos + v.spec_bytes().len()) == v.spec_bytes(),
    ensures
        spec_read_scheme_hash(s, pos) == Ok::<(TpmsSchemeHash, int), TpmError>((v, pos + v.spec_bytes().len())),
{
    lemma_read_alg_of_bytes(s, pos, v.hash_alg);
}

/// A key derivation scheme written at `pos` reads back.
pub proof fn lemma_read_kdf_scheme_at(v: TpmtKdfScheme, s: Seq<u8>, pos: int)
    requires
        0 <= pos,
        pos + v.spec_bytes().len() <= s.len(),
        s.subrange(pos, pos + v.spec_bytes().len()) == v.spec_bytes(),
    ensures
        spec_read_kdf_scheme(s, pos) == Ok::<(TpmtKdfScheme, int), TpmError>((v, pos + v.spec_bytes().len())),
{
    lemma_read_alg_of_bytes(s, pos, v.scheme);
}

/// An XOR scheme written at `pos` reads back.
pub proof fn lemma_read_scheme_xor_at(v: TpmsSchemeXor, s: Seq<u8>, pos: int)
    requires
        0 <= pos,
        pos + v.spec_bytes().len() <= s.len(),
        s.subrange(pos, pos + v.spec_bytes().len()) == v.spec_bytes(),
    ensures
        spec_read_scheme_xor(s, pos) == Ok::<(TpmsSchemeXor, int), TpmError>((v, pos + v.spec_bytes().len())),
{
    lemma_split_run(s, pos, spec_alg_bytes(v.hash_alg), v.kdf.spec_bytes());
    lemma_read_alg_of_bytes(s, pos, v.hash_alg);
    lemma_read_kdf_scheme_at(v.kdf, s, pos + 2);
}

/// The member that `tag` selects, written at `pos`, reads back.
pub proof fn lemma_read_asym_details_at(tag: TpmAlgId, d: TpmuAsymScheme, s: Seq<u8>, pos: int)
    requires
        asym_selects(tag, d),
        0 <= pos,
        pos + d.spec_bytes().len() <= s.len(),
        s.subrange(pos, pos + d.spec_bytes().len()) == d.spec_bytes(),
    ensures
        spec_read_asym_details(tag, s, pos) == Ok::<(TpmuAsymScheme, int), TpmError>((d, pos + d.spec_bytes().len())),
{
    match d {
        TpmuAsymScheme::Hash(h) => lemma_read_scheme_hash_at(h, s, pos),
        TpmuAsymScheme::Null => {},
    }
}

/// The member that `tag` selects, written at `pos`, reads back.
pub proof fn lemma_read_keyedhash_details_at(tag: TpmAlgId, d: TpmuKeyedhashScheme, s: Seq<u8>, pos: int)
    requires
        keyedhash_selects(tag, d),
        0 <= pos,
        pos + d.spec_bytes().len() <= s.len(),
        s.subrange(pos, pos + d.spec_bytes().len()) == d.spec_bytes(),
    ensures
        spec_read_keyedhash_details(tag, s, pos) == Ok::<(TpmuKeyedhashScheme, int), TpmError>((d, pos + d.spec_bytes().len())),
{
    match d {
        TpmuKeyedhashScheme::Hmac(h) => lemma_read_scheme_hash_at(h, s, pos),
        TpmuKeyedhashScheme::Xor(x) => lemma_read_scheme_xor_at(x, s, pos),
        TpmuKeyedhashScheme::Null => {},
    }
}

/// The member that `tag` selects, written at `pos`, reads back.
pub proof fn lemma_read_sig_details_at(tag: TpmAlgId, d: TpmuSigScheme, s: Seq<u8>, pos: int)
    requires
        sig_selects(tag, d),
        0 <= pos,
        pos + d.spec_bytes().len() <= s.len(),
        s.subrange(pos, pos + d.spec_bytes().len()) == d.spec_bytes(),
    ensures
        spec_read_sig_details(tag, s, pos) == Ok::<(TpmuSigScheme, int), TpmError>((d, pos + d.spec_bytes().len())),
{
    match d {
        TpmuSigScheme::Hash(h) | TpmuSigScheme::Hmac(h) => lemma_read_scheme_hash_at(h, s, pos),
        TpmuSigScheme::Null => {},
    }
}

/// The member that `tag` selects, written at `pos`, reads back.
pub proof fn lemma_read_kdf_details_at(tag: TpmAlgId, d: TpmuKdfScheme, s: Seq<u8>, pos: int)
    requires
        kdf_selects(tag, d),
        0 <= pos,
        pos + d.spec_bytes().len() <= s.len(),
        s.subrange(pos, pos + d.spec_bytes().len()) == d.spec_bytes(),
    ensures
        spec_read_kdf_details(tag, s, pos) == Ok::<(TpmuKdfScheme, int), TpmError>((d, pos + d.spec_bytes().len())),
{
    match d {
        TpmuKdfScheme::Mgf1(h) | TpmuKdfScheme::Kdf1Sp800_56a(h) | TpmuKdfScheme::Kdf2(h)
        | TpmuKdfScheme::Kdf1Sp800_108(h) => lemma_read_scheme_hash_at(h, s, pos),
        TpmuKdfScheme::Null => {},
    }
}

/// A well-formed keyed-hash scheme written at `pos` reads back.
pub proof fn lemma_read_keyedhash_scheme_at(v: TpmtKeyedhashScheme, s: Seq<u8>, pos: int)
    requires
        v.wf(),
        0 <= pos,
        pos + v.spec_bytes().len() <= s.len(),
        s.subrange(pos, pos + v.spec_bytes().len()) == v.spec_bytes(),
    ensures
        spec_read_keyedhash_scheme(s, pos) == Ok::<(TpmtKeyedhashScheme, int), TpmError>((v, pos + v.spec_bytes().len())),
{
    lemma_split_run(s, pos, spec_alg_bytes(v.scheme), v.details.spec_bytes());
    lemma_read_alg_of_bytes(s, pos, v.scheme);
    lemma_read_keyedhash_details_at(v.scheme, v.details, s, pos + 2);
}

/// Unmarshaling the bytes of a well-formed keyed-hash scheme, followed by
/// anything, gives it back and stops after its bytes.
pub proof fn lemma_keyedhash_scheme_roundtrip(v: TpmtKeyedhashScheme, rest: Seq<u8>)
    requires
        v.wf(),
    ensures
        spec_read_keyedhash_scheme(v.spec_bytes() + rest, 0) == Ok::<(TpmtKeyedhashScheme, int), TpmError>(
            (v, v.spec_bytes().len() as int),
        ),
{
    let s = v.spec_bytes() + rest;
    assert(s.subrange(0, v.spec_bytes().len() as int) =~= v.spec_bytes());
    lemma_read_keyedhash_scheme_at(v, s, 0);
}

/// A well-formed RSA scheme written at `pos` reads back.
pub proof fn lemma_read_rsa_scheme_at(v: TpmtRsaScheme, s: Seq<u8>, pos: int)
    requires
        v.wf(),
        0 <= pos,
        pos + v.spec_bytes().len() <= s.len(),
        s.subrange(pos, pos + v.spec_bytes().len()) == v.spec_bytes(),
    ensures
        spec_read_rsa_scheme(s, pos) == Ok::<(TpmtRsaScheme, int), TpmError>((v, pos + v.spec_bytes().len())),
{
    lemma_split_run(s, pos, spec_alg_bytes(v.scheme), v.details.spec_bytes());
    lemma_read_alg_of_bytes(s, pos, v.scheme);
    lemma_read_asym_details_at(v.scheme, v.details, s, pos + 2);
}

/// Unmarshaling the bytes of a well-formed RSA scheme, followed by
/// anything, gives it back and stops after its bytes.
pub proof fn lemma_rsa_scheme_roundtrip(v: TpmtRsaScheme, rest: Seq<u8>)
    requires
        v.wf(),
    ensures
        spec_read_rsa_scheme(v.spec_bytes() + rest, 0) == Ok::<(TpmtRsaScheme, int), TpmError>(
            (v, v.spec_bytes().len() as int),
        ),
{
    let s = v.spec_bytes() + rest;
    assert(s.subrange(0, v.spec_bytes().len() as int) =~= v.spec_bytes());
    lemma_read_rsa_scheme_at(v, s, 0);
}

/// A well-formed ECC scheme written at `pos` reads back.
pub proof fn lemma_read_ecc_scheme_at(v: TpmtEccScheme, s: Seq<u8>, pos: int)
    requires
        v.wf(),
        0 <= pos,
        pos + v.spec_bytes().len() <= s.len(),
        s.subrange(pos, pos + v.spec_bytes().len()) == v.spec_bytes(),
    ensures
        spec_read_ecc_scheme(s, pos) == Ok::<(TpmtEccScheme, int), TpmError>((v, pos + v.spec_bytes().len())),
{
    lemma_split_run(s, pos, spec_alg_bytes(v.scheme), v.details.spec_bytes());
    lemma_read_alg_of_bytes(s, pos, v.scheme);
    lemma_read_asym_details_at(v.scheme, v.details, s, pos + 2);
}

/// Unmarshaling the bytes of a well-formed ECC scheme, followed by
/// anything, gives it back and stops after its bytes.
pub proof fn lemma_ecc_scheme_roundtrip(v: TpmtEccScheme, rest: Seq<u8>)
    requires
        v.wf(),
    ensures
        spec_read_ecc_scheme(v.spec_bytes() + rest, 0) == Ok::<(TpmtEccScheme, int), TpmError>(
            (v, v.spec_bytes().len() as int),
        ),
{
    let s = v.spec_bytes() + rest;
    assert(s.subrange(0, v.spec_bytes().len() as int) =~= v.spec_bytes());
    lemma_read_ecc_scheme_at(v, s, 0);
}

/// A well-formed signature scheme written at `pos` reads back.
pub proof fn lemma_read_sig_scheme_at(v: TpmtSigScheme, s: Seq<u8>, pos: int)
    requires
        v.wf(),
        0 <= pos,
        pos + v.spec_bytes().len() <= s.len(),
        s.subrange(pos, pos + v.spec_bytes().len()) == v.spec_bytes(),
    ensures
        spec_read_sig_scheme(s, pos) == Ok::<(TpmtSigScheme, int), TpmError>((v, pos + v.spec_bytes().len())),
{
    lemma_split_run(s, pos, spec_alg_bytes(v.scheme), v.details.spec_bytes());
    lemma_read_alg_of_bytes(s, pos, v.scheme);
    lemma_read_sig_details_at(v.scheme, v.details, s, pos + 2);
}

/// Unmarshaling the bytes of a well-formed signature scheme, followed by
/// anything, gives it back and stops after its bytes.
pub proof fn lemma_sig_scheme_roundtrip(v: TpmtSigScheme, rest: Seq<u8>)
    requires
        v.wf(),
    ensures
        spec_read_sig_scheme(v.spec_bytes() + rest, 0) == Ok::<(TpmtSigScheme, int), TpmError>(
            (v, v.spec_bytes().len() as int),
        ),
{
    let s = v.spec_bytes() + rest;
    assert(s.subrange(0, v.spec_bytes().len() as int) =~= v.spec_bytes());
    lemma_read_sig_scheme_at(v, s, 0);
}

} // verus!
