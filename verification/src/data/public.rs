//! The public and the sensitive area of an object (`TPMT_PUBLIC`,
//! `TPMT_SENSITIVE`) and the unions they select by the object's type.

use crate::constant::{
    MAX_DIGEST_SIZE, MAX_ECC_KEY_BYTES, MAX_RSA_KEY_BYTES, MAX_RSA_PRIVATE_BYTES, MAX_SENSITIVE_DATA,
    MAX_SYM_KEY_BYTES,
};
use crate::data::alg::TpmAlgId;
use crate::data::attr::TpmaObject;
use crate::data::curve::{lemma_ecc_curve_value_roundtrip, spec_tpm_ecc_curve_from_u16, TpmEccCurve};
use crate::data::schemes::{
    lemma_read_ecc_scheme_at, lemma_read_kdf_scheme_at, lemma_read_keyedhash_scheme_at,
    lemma_read_rsa_scheme_at, read_kdf_scheme_at, spec_alg_bytes, spec_read_ecc_scheme,
    spec_read_kdf_scheme, spec_read_keyedhash_scheme, spec_read_rsa_scheme, TpmtEccScheme,
    TpmtKdfScheme, TpmtKeyedhashScheme, TpmtRsaScheme,
};
use crate::data::sym::{
    lemma_read_alg_of_bytes, lemma_read_sym_def_at, lemma_read_u16_of_bytes, read_alg_at,
    read_u16_at, spec_read_alg, spec_read_u16, spec_unmarshal_sym_def, TpmtSymDef,
};
use crate::error::{TpmError, TpmResult};
use crate::frame::auth::{parse_tpm2b, spec_parse_tpm2b, spec_tpm2b_bytes};
use crate::frame::codec::{
    lemma_be16_roundtrip, lemma_split_run, push_bytes, push_u16, push_u32, read_u32, spec_be16_bytes,
    spec_be32, spec_be32_bytes,
};
use crate::frame::roundtrip::{lemma_be16_at, lemma_be32_at, lemma_subrange_of_eq};
use vstd::prelude::*;
use vstd::slice::slice_subrange;

verus! {

/// The parameters of a keyed-hash object (`TPMS_KEYEDHASH_PARMS`).
#[derive(Debug, Clone, Copy, PartialEq, Eq, Structural)]
pub struct TpmsKeyedhashParms {
    pub scheme: TpmtKeyedhashScheme,
}

/// The parameters of a symmetric cipher object (`TPMS_SYMCIPHER_PARMS`).
#[derive(Debug, Clone, Copy, PartialEq, Eq, Structural)]
pub struct TpmsSymcipherParms {
    pub sym: TpmtSymDef,
}

/// The parameters of an RSA key (`TPMS_RSA_PARMS`).
#[derive(Debug, Clone, Copy, PartialEq, Eq, Structural)]
pub struct TpmsRsaParms {
    pub symmetric: TpmtSymDef,
    pub scheme: TpmtRsaScheme,
    pub key_bits: u16,
    pub exponent: u32,
}

/// The parameters of an ECC key (`TPMS_ECC_PARMS`).
#[derive(Debug, Clone, Copy, PartialEq, Eq, Structural)]
pub struct TpmsEccParms {
    pub symmetric: TpmtSymDef,
    pub scheme: TpmtEccScheme,
    pub curve_id: TpmEccCurve,
    pub kdf: TpmtKdfScheme,
}

/// The parameters of an object, by its type (`TPMU_PUBLIC_PARMS`).
#[derive(Debug, Clone, Copy, PartialEq, Eq, Structural)]
pub enum TpmuPublicParms {
    KeyedHash(TpmsKeyedhashParms),
    SymCipher(TpmsSymcipherParms),
    Rsa(TpmsRsaParms),
    Ecc(TpmsEccParms),
    Null,
}

/// A point on an elliptic curve (`TPMS_ECC_POINT`): two size-prefixed
/// coordinates.
#[derive(Debug, Clone, PartialEq, Eq)]
pub struct TpmsEccPoint {
    pub x: Vec<u8>,
    pub y: Vec<u8>,
}

/// The unique identifier of an object, by its type (`TPMU_PUBLIC_ID`).
#[derive(Debug, Clone, PartialEq, Eq)]
pub enum TpmuPublicId {
    KeyedHash(Vec<u8>),
    SymCipher(Vec<u8>),
    Rsa(Vec<u8>),
    Ecc(TpmsEccPoint),
    Null,
}

/// The public area of an object (`TPMT_PUBLIC`).
#[derive(Debug, Clone, PartialEq, Eq)]
pub struct TpmtPublic {
    pub object_type: TpmAlgId,
    pub name_alg: TpmAlgId,
    pub object_attributes: TpmaObject,
    pub auth_policy: Vec<u8>,
    pub parameters: TpmuPublicParms,
    pub unique: TpmuPublicId,
}

/// The secret key material of an object, by its type
/// (`TPMU_SENSITIVE_COMPOSITE`).
#[derive(Debug, Clone, PartialEq, Eq)]
pub enum TpmuSensitiveComposite {
    Rsa(Vec<u8>),
    Ecc(Vec<u8>),
    Bits(Vec<u8>),
    Sym(Vec<u8>),
}

/// The sensitive area of an object (`TPMT_SENSITIVE`).
#[derive(Debug, Clone, PartialEq, Eq)]
pub struct TpmtSensitive {
    pub sensitive_type: TpmAlgId,
    pub auth_value: Vec<u8>,
    pub seed_value: Vec<u8>,
    pub sensitive: TpmuSensitiveComposite,
}

// ---------------------------------------------------------------------------
// Values
// ---------------------------------------------------------------------------

/// The value of an ECC point.
pub struct EccPointView {
    pub x: Seq<u8>,
    pub y: Seq<u8>,
}

/// The value of a unique identifier.
pub enum PublicIdView {
    KeyedHash(Seq<u8>),
    SymCipher(Seq<u8>),
    Rsa(Seq<u8>),
    Ecc(EccPointView),
    Null,
}

/// The value of a public area.
pub struct PublicView {
    pub object_type: TpmAlgId,
    pub name_alg: TpmAlgId,
    pub object_attributes: u32,
    pub auth_policy: Seq<u8>,
    pub parameters: TpmuPublicParms,
    pub unique: PublicIdView,
}

/// The value of secret key material.
pub enum SensitiveCompositeView {
    Rsa(Seq<u8>),
    Ecc(Seq<u8>),
    Bits(Seq<u8>),
    Sym(Seq<u8>),
}

/// The value of a sensitive area.
pub struct SensitiveView {
    pub sensitive_type: TpmAlgId,
    pub auth_value: Seq<u8>,
    pub seed_value: Seq<u8>,
    pub sensitive: SensitiveCompositeView,
}

impl View for TpmsEccPoint {
    type V = EccPointView;

    open spec fn view(&self) -> EccPointView {
        EccPointView { x: self.x@, y: self.y@ }
    }
}

impl View for TpmuPublicId {
    type V = PublicIdView;

    open spec fn view(&self) -> PublicIdView {
        match self {
            TpmuPublicId::KeyedHash(d) => PublicIdView::KeyedHash(d@),
            TpmuPublicId::SymCipher(d) => PublicIdView::SymCipher(d@),
            TpmuPublicId::Rsa(d) => PublicIdView::Rsa(d@),
            TpmuPublicId::Ecc(p) => PublicIdView::Ecc(p@),
            TpmuPublicId::Null => PublicIdView::Null,
        }
    }
}

impl View for TpmtPublic {
    type V = PublicView;

    open spec fn view(&self) -> PublicView {
        PublicView {
            object_type: self.object_type,
            name_alg: self.name_alg,
            object_attributes: self.object_attributes.0,
            auth_policy: self.auth_policy@,
            parameters: self.parameters,
            unique: self.unique@,
        }
    }
}

impl View for TpmuSensitiveComposite {
    type V = SensitiveCompositeView;

    open spec fn view(&self) -> SensitiveCompositeView {
        match self {
            TpmuSensitiveComposite::Rsa(d) => SensitiveCompositeView::Rsa(d@),
            TpmuSensitiveComposite::Ecc(d) => SensitiveCompositeView::Ecc(d@),
            TpmuSensitiveComposite::Bits(d) => SensitiveCompositeView::Bits(d@),
            TpmuSensitiveComposite::Sym(d) => SensitiveCompositeView::Sym(d@),
        }
    }
}

impl View for TpmtSensitive {
    type V = SensitiveView;

    open spec fn view(&self) -> SensitiveView {
        SensitiveView {
            sensitive_type: self.sensitive_type,
            auth_value: self.auth_value@,
            seed_value: self.seed_value@,
            sensitive: self.sensitive@,
        }
    }
}

// ---------------------------------------------------------------------------
// Wire bytes and well-formedness
// ---------------------------------------------------------------------------

impl TpmsKeyedhashParms {
    pub open spec fn spec_bytes(self) -> Seq<u8> {
        self.scheme.spec_bytes()
    }

    pub open spec fn wf(self) -> bool {
        self.scheme.wf()
    }
}

impl TpmsSymcipherParms {
    pub open spec fn spec_bytes(self) -> Seq<u8> {
        self.sym.spec_bytes()
    }

    pub open spec fn wf(self) -> bool {
        self.sym.wf()
    }
}

impl TpmsRsaParms {
    /// The symmetric definition, the scheme, the key size and the exponent.
    pub open spec fn spec_bytes(self) -> Seq<u8> {
        self.symmetric.spec_bytes() + self.scheme.spec_bytes() + spec_be16_bytes(self.key_bits)
            + spec_be32_bytes(self.exponent)
    }

    pub open spec fn wf(self) -> bool {
        self.symmetric.wf() && self.scheme.wf()
    }
}

impl TpmsEccParms {
    /// The symmetric definition, the scheme, the curve and the key
    /// derivation scheme.
    pub open spec fn spec_bytes(self) -> Seq<u8> {
        self.symmetric.spec_bytes() + self.scheme.spec_bytes() + spec_be16_bytes(
            self.curve_id.spec_value(),
        ) + self.kdf.spec_bytes()
    }

    pub open spec fn wf(self) -> bool {
        self.symmetric.wf() && self.scheme.wf()
    }
}

impl TpmuPublicParms {
    /// The bytes of the selected member; none for `Null`.
    pub open spec fn spec_bytes(self) -> Seq<u8> {
        match self {
            TpmuPublicParms::KeyedHash(p) => p.spec_bytes(),
            TpmuPublicParms::SymCipher(p) => p.spec_bytes(),
            TpmuPublicParms::Rsa(p) => p.spec_bytes(),
            TpmuPublicParms::Ecc(p) => p.spec_bytes(),
            TpmuPublicParms::Null => Seq::empty(),
        }
    }
}

/// `p` is the member of `TPMU_PUBLIC_PARMS` that `tag` selects, and is
/// itself well formed.
pub open spec fn parms_selects(tag: TpmAlgId, p: TpmuPublicParms) -> bool {
    match p {
        TpmuPublicParms::KeyedHash(k) => tag == TpmAlgId::KeyedHash && k.wf(),
        TpmuPublicParms::SymCipher(c) => tag == TpmAlgId::SymCipher && c.wf(),
        TpmuPublicParms::Rsa(r) => tag == TpmAlgId::Rsa && r.wf(),
        TpmuPublicParms::Ecc(e) => tag == TpmAlgId::Ecc && e.wf(),
        TpmuPublicParms::Null => tag == TpmAlgId::Null,
    }
}

impl EccPointView {
    pub open spec fn spec_bytes(self) -> Seq<u8> {
        spec_tpm2b_bytes(self.x) + spec_tpm2b_bytes(self.y)
    }

    /// Both coordinates fit their buffers.
    pub open spec fn fits(self) -> bool {
        self.x.len() <= MAX_ECC_KEY_BYTES && self.y.len() <= MAX_ECC_KEY_BYTES
    }
}

impl PublicIdView {
    /// The bytes of the selected member; none for `Null`.
    pub open spec fn spec_bytes(self) -> Seq<u8> {
        match self {
            PublicIdView::KeyedHash(d) | PublicIdView::SymCipher(d) | PublicIdView::Rsa(d) => spec_tpm2b_bytes(d),
            PublicIdView::Ecc(p) => p.spec_bytes(),
            PublicIdView::Null => Seq::empty(),
        }
    }
}

impl PublicIdView {
    /// The member fits its buffers.
    pub open spec fn fits(self) -> bool {
        match self {
            PublicIdView::KeyedHash(d) => d.len() <= MAX_DIGEST_SIZE,
            PublicIdView::SymCipher(d) => d.len() <= MAX_SYM_KEY_BYTES,
            PublicIdView::Rsa(d) => d.len() <= MAX_RSA_KEY_BYTES,
            PublicIdView::Ecc(p) => p.fits(),
            PublicIdView::Null => true,
        }
    }
}

/// `u` is the member of `TPMU_PUBLIC_ID` that `tag` selects, and fits its
/// buffers.
pub open spec fn unique_selects(tag: TpmAlgId, u: PublicIdView) -> bool {
    &&& u.fits()
    &&& match u {
        PublicIdView::KeyedHash(_) => tag == TpmAlgId::KeyedHash,
        PublicIdView::SymCipher(_) => tag == TpmAlgId::SymCipher,
        PublicIdView::Rsa(_) => tag == TpmAlgId::Rsa,
        PublicIdView::Ecc(_) => tag == TpmAlgId::Ecc,
        PublicIdView::Null => tag == TpmAlgId::Null,
    }
}

impl PublicView {
    /// The type, the name algorithm, the attributes, the policy, then the
    /// parameters and the unique identifier that the type selects.
    pub open spec fn spec_bytes(self) -> Seq<u8> {
        spec_alg_bytes(self.object_type) + spec_alg_bytes(self.name_alg) + spec_be32_bytes(
            self.object_attributes,
        ) + spec_tpm2b_bytes(self.auth_policy) + self.parameters.spec_bytes()
            + self.unique.spec_bytes()
    }

    /// The policy and the unique identifier fit their buffers.
    pub open spec fn fits(self) -> bool {
        self.auth_policy.len() <= MAX_DIGEST_SIZE && self.unique.fits()
    }

    /// The policy fits its buffer, and the parameters and the unique
    /// identifier are the members that the object's type selects.
    pub open spec fn wf(self) -> bool {
        &&& self.auth_policy.len() <= MAX_DIGEST_SIZE
        &&& parms_selects(self.object_type, self.parameters)
        &&& unique_selects(self.object_type, self.unique)
    }
}

impl SensitiveCompositeView {
    /// The size-prefixed key material.
    pub open spec fn spec_bytes(self) -> Seq<u8> {
        match self {
            SensitiveCompositeView::Rsa(d) | SensitiveCompositeView::Ecc(d)
            | SensitiveCompositeView::Bits(d) | SensitiveCompositeView::Sym(d) => spec_tpm2b_bytes(d),
        }
    }
}

impl SensitiveCompositeView {
    /// The key material fits its buffer.
    pub open spec fn fits(self) -> bool {
        match self {
            SensitiveCompositeView::Rsa(d) => d.len() <= MAX_RSA_PRIVATE_BYTES,
            SensitiveCompositeView::Ecc(d) => d.len() <= MAX_ECC_KEY_BYTES,
            SensitiveCompositeView::Bits(d) => d.len() <= MAX_SENSITIVE_DATA,
            SensitiveCompositeView::Sym(d) => d.len() <= MAX_SYM_KEY_BYTES,
        }
    }
}

/// `c` is the member of `TPMU_SENSITIVE_COMPOSITE` that `tag` selects, and
/// fits its buffer.
pub open spec fn sensitive_selects(tag: TpmAlgId, c: SensitiveCompositeView) -> bool {
    &&& c.fits()
    &&& match c {
        SensitiveCompositeView::Rsa(_) => tag == TpmAlgId::Rsa,
        SensitiveCompositeView::Ecc(_) => tag == TpmAlgId::Ecc,
        SensitiveCompositeView::Bits(_) => tag == TpmAlgId::KeyedHash,
        SensitiveCompositeView::Sym(_) => tag == TpmAlgId::SymCipher,
    }
}

impl SensitiveView {
    /// The type, the auth value, the seed, then the key material.
    pub open spec fn spec_bytes(self) -> Seq<u8> {
        spec_alg_bytes(self.sensitive_type) + spec_tpm2b_bytes(self.auth_value) + spec_tpm2b_bytes(
            self.seed_value,
        ) + self.sensitive.spec_bytes()
    }

    /// The buffers fit.
    pub open spec fn fits(self) -> bool {
        self.auth_value.len() <= MAX_DIGEST_SIZE && self.seed_value.len() <= MAX_DIGEST_SIZE
            && self.sensitive.fits()
    }

    /// The buffers fit, and the key material is the member that the type
    /// selects.
    pub open spec fn wf(self) -> bool {
        &&& self.auth_value.len() <= MAX_DIGEST_SIZE
        &&& self.seed_value.len() <= MAX_DIGEST_SIZE
        &&& sensitive_selects(self.sensitive_type, self.sensitive)
    }
}

// ---------------------------------------------------------------------------
// Reading, as spec functions over the bytes `s` from `pos`
// ---------------------------------------------------------------------------

/// Reads a size-prefixed buffer of at most `cap` bytes at `pos`.
pub open spec fn spec_read_tpm2b(s: Seq<u8>, pos: int, cap: usize) -> TpmResult<(Seq<u8>, int)> {
    match spec_parse_tpm2b(s, pos, s.len() as int, cap) {
        Err(e) => Err(e),
        Ok((d, _)) => Ok((d, pos + 2 + d.len())),
    }
}

/// Reads a big-endian `u32` at `pos`.
pub open spec fn spec_read_u32(s: Seq<u8>, pos: int) -> TpmResult<(u32, int)> {
    if s.len() - pos < 4 {
        Err(TpmError::UnexpectedEnd { offset: pos as usize, needed: 4, available: (s.len() - pos) as usize })
    } else {
        Ok((spec_be32(s, pos), pos + 4))
    }
}

/// Reads an ECC curve identifier at `pos`.
pub open spec fn spec_read_curve(s: Seq<u8>, pos: int) -> TpmResult<(TpmEccCurve, int)> {
    match spec_read_u16(s, pos) {
        Err(e) => Err(e),
        Ok((v, next)) => match spec_tpm_ecc_curve_from_u16(v) {
            None => Err(TpmError::VariantNotAvailable { offset: 0, value: v as u64 }),
            Some(c) => Ok((c, next)),
        },
    }
}

/// Reads RSA parameters at `pos`.
pub open spec fn spec_read_rsa_parms(s: Seq<u8>, pos: int) -> TpmResult<(TpmsRsaParms, int)> {
    match spec_unmarshal_sym_def(s, pos) {
        Err(e) => Err(e),
        Ok((symmetric, p1)) => match spec_read_rsa_scheme(s, p1) {
            Err(e) => Err(e),
            Ok((scheme, p2)) => match spec_read_u16(s, p2) {
                Err(e) => Err(e),
                Ok((key_bits, p3)) => match spec_read_u32(s, p3) {
                    Err(e) => Err(e),
                    Ok((exponent, next)) => Ok((TpmsRsaParms { symmetric, scheme, key_bits, exponent }, next)),
                },
            },
        },
    }
}

/// Reads ECC parameters at `pos`.
pub open spec fn spec_read_ecc_parms(s: Seq<u8>, pos: int) -> TpmResult<(TpmsEccParms, int)> {
    match spec_unmarshal_sym_def(s, pos) {
        Err(e) => Err(e),
        Ok((symmetric, p1)) => match spec_read_ecc_scheme(s, p1) {
            Err(e) => Err(e),
            Ok((scheme, p2)) => match spec_read_curve(s, p2) {
                Err(e) => Err(e),
                Ok((curve_id, p3)) => match spec_read_kdf_scheme(s, p3) {
                    Err(e) => Err(e),
                    Ok((kdf, next)) => Ok((TpmsEccParms { symmetric, scheme, curve_id, kdf }, next)),
                },
            },
        },
    }
}

/// Reads the parameters that the object type `tag` selects.
pub open spec fn spec_read_public_parms(tag: TpmAlgId, s: Seq<u8>, pos: int) -> TpmResult<(TpmuPublicParms, int)> {
    match tag {
        TpmAlgId::KeyedHash => match spec_read_keyedhash_scheme(s, pos) {
            Err(e) => Err(e),
            Ok((scheme, next)) => Ok((TpmuPublicParms::KeyedHash(TpmsKeyedhashParms { scheme }), next)),
        },
        TpmAlgId::SymCipher => match spec_unmarshal_sym_def(s, pos) {
            Err(e) => Err(e),
            Ok((sym, next)) => Ok((TpmuPublicParms::SymCipher(TpmsSymcipherParms { sym }), next)),
        },
        TpmAlgId::Rsa => match spec_read_rsa_parms(s, pos) {
            Err(e) => Err(e),
            Ok((p, next)) => Ok((TpmuPublicParms::Rsa(p), next)),
        },
        TpmAlgId::Ecc => match spec_read_ecc_parms(s, pos) {
            Err(e) => Err(e),
            Ok((p, next)) => Ok((TpmuPublicParms::Ecc(p), next)),
        },
        TpmAlgId::Null => Ok((TpmuPublicParms::Null, pos)),
        _ => Err(TpmError::VariantNotAvailable { offset: 0, value: tag.spec_value() as u64 }),
    }
}

/// Reads an ECC point at `pos`.
pub open spec fn spec_read_ecc_point(s: Seq<u8>, pos: int) -> TpmResult<(EccPointView, int)> {
    match spec_read_tpm2b(s, pos, MAX_ECC_KEY_BYTES) {
        Err(e) => Err(e),
        Ok((x, p)) => match spec_read_tpm2b(s, p, MAX_ECC_KEY_BYTES) {
            Err(e) => Err(e),
            Ok((y, next)) => Ok((EccPointView { x, y }, next)),
        },
    }
}

/// Reads the unique identifier that the object type `tag` selects. Any type
/// other than the four object types and `Null` is malformed here.
pub open spec fn spec_read_public_id(tag: TpmAlgId, s: Seq<u8>, pos: int) -> TpmResult<(PublicIdView, int)> {
    match tag {
        TpmAlgId::KeyedHash => match spec_read_tpm2b(s, pos, MAX_DIGEST_SIZE) {
            Err(e) => Err(e),
            Ok((d, next)) => Ok((PublicIdView::KeyedHash(d), next)),
        },
        TpmAlgId::SymCipher => match spec_read_tpm2b(s, pos, MAX_SYM_KEY_BYTES) {
            Err(e) => Err(e),
            Ok((d, next)) => Ok((PublicIdView::SymCipher(d), next)),
        },
        TpmAlgId::Rsa => match spec_read_tpm2b(s, pos, MAX_RSA_KEY_BYTES) {
            Err(e) => Err(e),
            Ok((d, next)) => Ok((PublicIdView::Rsa(d), next)),
        },
        TpmAlgId::Ecc => match spec_read_ecc_point(s, pos) {
            Err(e) => Err(e),
            Ok((p, next)) => Ok((PublicIdView::Ecc(p), next)),
        },
        TpmAlgId::Null => Ok((PublicIdView::Null, pos)),
        _ => Err(TpmError::MalformedValue),
    }
}

/// Reads a public area at `pos`: the object type, the name algorithm, the
/// attributes, the policy, then the parameters and the unique identifier
/// that the object type selects.
pub open spec fn spec_read_public(s: Seq<u8>, pos: int) -> TpmResult<(PublicView, int)> {
    match spec_read_alg(s, pos) {
        Err(e) => Err(e),
        Ok((object_type, p1)) => match spec_read_alg(s, p1) {
            Err(e) => Err(e),
            Ok((name_alg, p2)) => match spec_read_u32(s, p2) {
                Err(e) => Err(e),
                Ok((object_attributes, p3)) => match spec_read_tpm2b(s, p3, MAX_DIGEST_SIZE) {
                    Err(e) => Err(e),
                    Ok((auth_policy, p4)) => match spec_read_public_parms(object_type, s, p4) {
                        Err(e) => Err(e),
                        Ok((parameters, p5)) => match spec_read_public_id(object_type, s, p5) {
                            Err(e) => Err(e),
                            Ok((unique, next)) => Ok((
                                PublicView { object_type, name_alg, object_attributes, auth_policy, parameters, unique },
                                next,
                            )),
                        },
                    },
                },
            },
        },
    }
}

/// Reads the key material that the object type `tag` selects. Any type
/// other than the four object types is malformed here.
pub open spec fn spec_read_sensitive_composite(tag: TpmAlgId, s: Seq<u8>, pos: int) -> TpmResult<
    (SensitiveCompositeView, int),
> {
    match tag {
        TpmAlgId::Rsa => match spec_read_tpm2b(s, pos, MAX_RSA_PRIVATE_BYTES) {
            Err(e) => Err(e),
            Ok((d, next)) => Ok((SensitiveCompositeView::Rsa(d), next)),
        },
        TpmAlgId::Ecc => match spec_read_tpm2b(s, pos, MAX_ECC_KEY_BYTES) {
            Err(e) => Err(e),
            Ok((d, next)) => Ok((SensitiveCompositeView::Ecc(d), next)),
        },
        TpmAlgId::KeyedHash => match spec_read_tpm2b(s, pos, MAX_SENSITIVE_DATA) {
            Err(e) => Err(e),
            Ok((d, next)) => Ok((SensitiveCompositeView::Bits(d), next)),
        },
        TpmAlgId::SymCipher => match spec_read_tpm2b(s, pos, MAX_SYM_KEY_BYTES) {
            Err(e) => Err(e),
            Ok((d, next)) => Ok((SensitiveCompositeView::Sym(d), next)),
        },
        _ => Err(TpmError::MalformedValue),
    }
}

/// Reads a sensitive area at `pos`: the type, the auth value, the seed, then
/// the key material that the type selects.
pub open spec fn spec_read_sensitive(s: Seq<u8>, pos: int) -> TpmResult<(SensitiveView, int)> {
    match spec_read_alg(s, pos) {
        Err(e) => Err(e),
        Ok((sensitive_type, p1)) => match spec_read_tpm2b(s, p1, MAX_DIGEST_SIZE) {
            Err(e) => Err(e),
            Ok((auth_value, p2)) => match spec_read_tpm2b(s, p2, MAX_DIGEST_SIZE) {
                Err(e) => Err(e),
                Ok((seed_value, p3)) => match spec_read_sensitive_composite(sensitive_type, s, p3) {
                    Err(e) => Err(e),
                    Ok((sensitive, next)) => Ok((SensitiveView { sensitive_type, auth_value, seed_value, sensitive }, next)),
                },
            },
        },
    }
}

// ---------------------------------------------------------------------------
// Executable reading
// ---------------------------------------------------------------------------

/// Reads a size-prefixed buffer of at most `cap` bytes at `pos`.
pub(crate) fn read_tpm2b_at(buf: &[u8], pos: usize, cap: usize) -> (r: TpmResult<(Vec<u8>, usize)>)
    requires
        pos <= buf@.len(),
    ensures
            match spec_read_tpm2b(buf@, pos as int, cap) {
                Ok((v, next)) => r matches Ok((w, q)) && w@ == v && q == next && pos <= next <= buf@.len(),
                Err(e) => r == Err::<(Vec<u8>, usize), TpmError>(e),
            },
{
    let (d, next) = parse_tpm2b(buf, pos, buf.len(), cap)?;
    Ok((d, next))
}

/// Reads a big-endian `u32` at `pos`.
pub(crate) fn read_u32_at(buf: &[u8], pos: usize) -> (r: TpmResult<(u32, usize)>)
    requires
        pos <= buf@.len(),
    ensures
            match spec_read_u32(buf@, pos as int) {
                Ok((v, next)) => r matches Ok((w, q)) && w == v && q == next && pos <= next <= buf@.len(),
                Err(e) => r == Err::<(u32, usize), TpmError>(e),
            },
{
    if buf.len() - pos < 4 {
        Err(TpmError::UnexpectedEnd { offset: pos, needed: 4, available: buf.len() - pos })
    } else {
        Ok((read_u32(buf, pos), pos + 4))
    }
}

/// Reads an ECC curve identifier at `pos`.
pub(crate) fn read_curve_at(buf: &[u8], pos: usize) -> (r: TpmResult<(TpmEccCurve, usize)>)
    requires
        pos <= buf@.len(),
    ensures
            match spec_read_curve(buf@, pos as int) {
                Ok((v, next)) => r matches Ok((w, q)) && w == v && q == next && pos <= next <= buf@.len(),
                Err(e) => r == Err::<(TpmEccCurve, usize), TpmError>(e),
            },
{
    let (v, next) = read_u16_at(buf, pos)?;
    match TpmEccCurve::from_u16(v) {
        None => Err(TpmError::VariantNotAvailable { offset: 0, value: v as u64 }),
        Some(c) => Ok((c, next)),
    }
}

impl TpmsRsaParms {
    pub(crate) fn read_at(buf: &[u8], pos: usize) -> (r: TpmResult<(TpmsRsaParms, usize)>)
        requires
            pos <= buf@.len(),
        ensures
            match spec_read_rsa_parms(buf@, pos as int) {
                Ok((v, next)) => r matches Ok((w, q)) && w == v && q == next && pos <= next <= buf@.len(),
                Err(e) => r == Err::<(TpmsRsaParms, usize), TpmError>(e),
            },
    {
        let (symmetric, p1) = TpmtSymDef::read_at(buf, pos)?;
        let (scheme, p2) = TpmtRsaScheme::read_at(buf, p1)?;
        let (key_bits, p3) = read_u16_at(buf, p2)?;
        let (exponent, next) = read_u32_at(buf, p3)?;
        Ok((TpmsRsaParms { symmetric, scheme, key_bits, exponent }, next))
    }
}

impl TpmsEccParms {
    pub(crate) fn read_at(buf: &[u8], pos: usize) -> (r: TpmResult<(TpmsEccParms, usize)>)
        requires
            pos <= buf@.len(),
        ensures
            match spec_read_ecc_parms(buf@, pos as int) {
                Ok((v, next)) => r matches Ok((w, q)) && w == v && q == next && pos <= next <= buf@.len(),
                Err(e) => r == Err::<(TpmsEccParms, usize), TpmError>(e),
            },
    {
        let (symmetric, p1) = TpmtSymDef::read_at(buf, pos)?;
        let (scheme, p2) = TpmtEccScheme::read_at(buf, p1)?;
        let (curve_id, p3) = read_curve_at(buf, p2)?;
        let (kdf, next) = read_kdf_scheme_at(buf, p3)?;
        Ok((TpmsEccParms { symmetric, scheme, curve_id, kdf }, next))
    }
}

impl TpmuPublicParms {
    pub(crate) fn read_tagged_at(tag: TpmAlgId, buf: &[u8], pos: usize) -> (r: TpmResult<(TpmuPublicParms, usize)>)
        requires
            pos <= buf@.len(),
        ensures
            match spec_read_public_parms(tag, buf@, pos as int) {
                Ok((v, next)) => r matches Ok((w, q)) && w == v && q == next && pos <= next <= buf@.len(),
                Err(e) => r == Err::<(TpmuPublicParms, usize), TpmError>(e),
            },
    {
        match tag {
            TpmAlgId::KeyedHash => {
                let (scheme, next) = TpmtKeyedhashScheme::read_at(buf, pos)?;
                Ok((TpmuPublicParms::KeyedHash(TpmsKeyedhashParms { scheme }), next))
            },
            TpmAlgId::SymCipher => {
                let (sym, next) = TpmtSymDef::read_at(buf, pos)?;
                Ok((TpmuPublicParms::SymCipher(TpmsSymcipherParms { sym }), next))
            },
            TpmAlgId::Rsa => {
                let (p, next) = TpmsRsaParms::read_at(buf, pos)?;
                Ok((TpmuPublicParms::Rsa(p), next))
            },
            TpmAlgId::Ecc => {
                let (p, next) = TpmsEccParms::read_at(buf, pos)?;
                Ok((TpmuPublicParms::Ecc(p), next))
            },
            TpmAlgId::Null => Ok((TpmuPublicParms::Null, pos)),
            _ => Err(TpmError::VariantNotAvailable { offset: 0, value: tag.value() as u64 }),
        }
    }

    /// Reads the parameters that the object type `tag` selects from the
    /// front of `buf` and returns them with the bytes after them.
    pub fn cast_tagged(tag: TpmAlgId, buf: &[u8]) -> (r: TpmResult<(TpmuPublicParms, &[u8])>)
        ensures
            match spec_read_public_parms(tag, buf@, 0) {
                Ok((v, next)) => r matches Ok((w, rest)) && w == v && rest@ == buf@.subrange(next, buf@.len() as int),
                Err(e) => r == Err::<(TpmuPublicParms, &[u8]), TpmError>(e),
            },
    {
        let (v, next) = TpmuPublicParms::read_tagged_at(tag, buf, 0)?;
        Ok((v, slice_subrange(buf, next, buf.len())))
    }
}

impl TpmsEccPoint {
    pub(crate) fn read_at(buf: &[u8], pos: usize) -> (r: TpmResult<(TpmsEccPoint, usize)>)
        requires
            pos <= buf@.len(),
        ensures
            match spec_read_ecc_point(buf@, pos as int) {
                Ok((v, next)) => r matches Ok((w, q)) && w@ == v && q == next && pos <= next <= buf@.len(),
                Err(e) => r == Err::<(TpmsEccPoint, usize), TpmError>(e),
            },
    {
        let (x, p) = read_tpm2b_at(buf, pos, MAX_ECC_KEY_BYTES)?;
        let (y, next) = read_tpm2b_at(buf, p, MAX_ECC_KEY_BYTES)?;
        Ok((TpmsEccPoint { x, y }, next))
    }
}

impl TpmuPublicId {
    pub(crate) fn read_tagged_at(tag: TpmAlgId, buf: &[u8], pos: usize) -> (r: TpmResult<(TpmuPublicId, usize)>)
        requires
            pos <= buf@.len(),
        ensures
            match spec_read_public_id(tag, buf@, pos as int) {
                Ok((v, next)) => r matches Ok((w, q)) && w@ == v && q == next && pos <= next <= buf@.len(),
                Err(e) => r == Err::<(TpmuPublicId, usize), TpmError>(e),
            },
    {
        match tag {
            TpmAlgId::KeyedHash => {
                let (d, next) = read_tpm2b_at(buf, pos, MAX_DIGEST_SIZE)?;
                Ok((TpmuPublicId::KeyedHash(d), next))
            },
            TpmAlgId::SymCipher => {
                let (d, next) = read_tpm2b_at(buf, pos, MAX_SYM_KEY_BYTES)?;
                Ok((TpmuPublicId::SymCipher(d), next))
            },
            TpmAlgId::Rsa => {
                let (d, next) = read_tpm2b_at(buf, pos, MAX_RSA_KEY_BYTES)?;
                Ok((TpmuPublicId::Rsa(d), next))
            },
            TpmAlgId::Ecc => {
                let (p, next) = TpmsEccPoint::read_at(buf, pos)?;
                Ok((TpmuPublicId::Ecc(p), next))
            },
            TpmAlgId::Null => Ok((TpmuPublicId::Null, pos)),
            _ => Err(TpmError::MalformedValue),
        }
    }

    /// Reads the unique identifier that the object type `tag` selects from
    /// the front of `buf` and returns it with the bytes after it.
    pub fn cast_tagged(tag: TpmAlgId, buf: &[u8]) -> (r: TpmResult<(TpmuPublicId, &[u8])>)
        ensures
            match spec_read_public_id(tag, buf@, 0) {
                Ok((v, next)) => r matches Ok((w, rest)) && w@ == v && rest@ == buf@.subrange(next, buf@.len() as int),
                Err(e) => r == Err::<(TpmuPublicId, &[u8]), TpmError>(e),
            },
    {
        let (v, next) = TpmuPublicId::read_tagged_at(tag, buf, 0)?;
        Ok((v, slice_subrange(buf, next, buf.len())))
    }
}

impl TpmtPublic {
    pub(crate) fn read_at(buf: &[u8], pos: usize) -> (r: TpmResult<(TpmtPublic, usize)>)
        requires
            pos <= buf@.len(),
        ensures
            match spec_read_public(buf@, pos as int) {
                Ok((v, next)) => r matches Ok((w, q)) && w@ == v && q == next && pos <= next <= buf@.len(),
                Err(e) => r == Err::<(TpmtPublic, usize), TpmError>(e),
            },
    {
        let (object_type, p1) = read_alg_at(buf, pos)?;
        let (name_alg, p2) = read_alg_at(buf, p1)?;
        let (attributes, p3) = read_u32_at(buf, p2)?;
        let (auth_policy, p4) = read_tpm2b_at(buf, p3, MAX_DIGEST_SIZE)?;
        let (parameters, p5) = TpmuPublicParms::read_tagged_at(object_type, buf, p4)?;
        let (unique, next) = TpmuPublicId::read_tagged_at(object_type, buf, p5)?;
        let public = TpmtPublic {
            object_type,
            name_alg,
            object_attributes: TpmaObject(attributes),
            auth_policy,
            parameters,
            unique,
        };
        Ok((public, next))
    }

    /// Reads a public area from the front of `buf` and returns it with the
    /// bytes after it.
    pub fn unmarshal(buf: &[u8]) -> (r: TpmResult<(TpmtPublic, &[u8])>)
        ensures
            match spec_read_public(buf@, 0) {
                Ok((v, next)) => r matches Ok((w, rest)) && w@ == v && rest@ == buf@.subrange(next, buf@.len() as int),
                Err(e) => r == Err::<(TpmtPublic, &[u8]), TpmError>(e),
            },
    {
        let (v, next) = TpmtPublic::read_at(buf, 0)?;
        Ok((v, slice_subrange(buf, next, buf.len())))
    }
}

impl TpmuSensitiveComposite {
    pub(crate) fn read_tagged_at(tag: TpmAlgId, buf: &[u8], pos: usize) -> (r: TpmResult<(TpmuSensitiveComposite, usize)>)
        requires
            pos <= buf@.len(),
        ensures
            match spec_read_sensitive_composite(tag, buf@, pos as int) {
                Ok((v, next)) => r matches Ok((w, q)) && w@ == v && q == next && pos <= next <= buf@.len(),
                Err(e) => r == Err::<(TpmuSensitiveComposite, usize), TpmError>(e),
            },
    {
        match tag {
            TpmAlgId::Rsa => {
                let (d, next) = read_tpm2b_at(buf, pos, MAX_RSA_PRIVATE_BYTES)?;
                Ok((TpmuSensitiveComposite::Rsa(d), next))
            },
            TpmAlgId::Ecc => {
                let (d, next) = read_tpm2b_at(buf, pos, MAX_ECC_KEY_BYTES)?;
                Ok((TpmuSensitiveComposite::Ecc(d), next))
            },
            TpmAlgId::KeyedHash => {
                let (d, next) = read_tpm2b_at(buf, pos, MAX_SENSITIVE_DATA)?;
                Ok((TpmuSensitiveComposite::Bits(d), next))
            },
            TpmAlgId::SymCipher => {
                let (d, next) = read_tpm2b_at(buf, pos, MAX_SYM_KEY_BYTES)?;
                Ok((TpmuSensitiveComposite::Sym(d), next))
            },
            _ => Err(TpmError::MalformedValue),
        }
    }

    /// Reads the key material that the object type `tag` selects from the
    /// front of `buf` and returns it with the bytes after it.
    pub fn cast_tagged(tag: TpmAlgId, buf: &[u8]) -> (r: TpmResult<(TpmuSensitiveComposite, &[u8])>)
        ensures
            match spec_read_sensitive_composite(tag, buf@, 0) {
                Ok((v, next)) => r matches Ok((w, rest)) && w@ == v && rest@ == buf@.subrange(next, buf@.len() as int),
                Err(e) => r == Err::<(TpmuSensitiveComposite, &[u8]), TpmError>(e),
            },
    {
        let (v, next) = TpmuSensitiveComposite::read_tagged_at(tag, buf, 0)?;
        Ok((v, slice_subrange(buf, next, buf.len())))
    }
}

impl TpmtSensitive {
    pub(crate) fn read_at(buf: &[u8], pos: usize) -> (r: TpmResult<(TpmtSensitive, usize)>)
        requires
            pos <= buf@.len(),
        ensures
            match spec_read_sensitive(buf@, pos as int) {
                Ok((v, next)) => r matches Ok((w, q)) && w@ == v && q == next && pos <= next <= buf@.len(),
                Err(e) => r == Err::<(TpmtSensitive, usize), TpmError>(e),
            },
    {
        let (sensitive_type, p1) = read_alg_at(buf, pos)?;
        let (auth_value, p2) = read_tpm2b_at(buf, p1, MAX_DIGEST_SIZE)?;
        let (seed_value, p3) = read_tpm2b_at(buf, p2, MAX_DIGEST_SIZE)?;
        let (sensitive, next) = TpmuSensitiveComposite::read_tagged_at(sensitive_type, buf, p3)?;
        Ok((TpmtSensitive { sensitive_type, auth_value, seed_value, sensitive }, next))
    }

    /// Reads a sensitive area from the front of `buf` and returns it with the
    /// bytes after it.
    pub fn unmarshal(buf: &[u8]) -> (r: TpmResult<(TpmtSensitive, &[u8])>)
        ensures
            match spec_read_sensitive(buf@, 0) {
                Ok((v, next)) => r matches Ok((w, rest)) && w@ == v && rest@ == buf@.subrange(next, buf@.len() as int),
                Err(e) => r == Err::<(TpmtSensitive, &[u8]), TpmError>(e),
            },
    {
        let (v, next) = TpmtSensitive::read_at(buf, 0)?;
        Ok((v, slice_subrange(buf, next, buf.len())))
    }
}

// ---------------------------------------------------------------------------
// Sizes and writing
// ---------------------------------------------------------------------------

/// The parameters of an object take at most sixteen bytes.
#[verifier::spinoff_prover]
#[verifier::rlimit(30)]
proof fn lemma_public_parms_len(p: TpmuPublicParms)
    ensures
        p.spec_bytes().len() <= 16,
{
    match p {
        TpmuPublicParms::KeyedHash(k) => {
            assert(k.scheme.details.spec_bytes().len() <= 4);
        },
        TpmuPublicParms::SymCipher(c) => {
            lemma_sym_def_len(c.sym);
        },
        TpmuPublicParms::Rsa(r) => {
            lemma_sym_def_len(r.symmetric);
            assert(r.scheme.details.spec_bytes().len() <= 2);
        },
        TpmuPublicParms::Ecc(e) => {
            lemma_sym_def_len(e.symmetric);
            assert(e.scheme.details.spec_bytes().len() <= 2);
        },
        TpmuPublicParms::Null => {},
    }
}

/// A symmetric algorithm definition takes at most six bytes.
proof fn lemma_sym_def_len(d: TpmtSymDef)
    ensures
        d.spec_bytes().len() <= 6,
{
}

/// Appends a size-prefixed buffer.
pub(crate) fn push_tpm2b(buf: &mut Vec<u8>, data: &Vec<u8>)
    ensures
        final(buf)@ == old(buf)@ + spec_tpm2b_bytes(data@),
{
    push_u16(buf, data.len() as u16);
    push_bytes(buf, data.as_slice());
    assert(buf@ =~= old(buf)@ + spec_tpm2b_bytes(data@));
}

impl TpmsKeyedhashParms {
    /// Returns the number of wire bytes.
    pub fn len(&self) -> (r: usize)
        ensures
            r == self.spec_bytes().len(),
    {
        self.scheme.len()
    }

    /// Appends the wire bytes.
    pub fn marshal(&self, buf: &mut Vec<u8>)
        ensures
            final(buf)@ == old(buf)@ + self.spec_bytes(),
    {
        self.scheme.marshal(buf);
    }
}

impl TpmsSymcipherParms {
    /// Returns the number of wire bytes.
    pub fn len(&self) -> (r: usize)
        ensures
            r == self.spec_bytes().len(),
    {
        self.sym.len()
    }

    /// Appends the wire bytes.
    pub fn marshal(&self, buf: &mut Vec<u8>)
        ensures
            final(buf)@ == old(buf)@ + self.spec_bytes(),
    {
        self.sym.marshal(buf);
    }
}

impl TpmsRsaParms {
    /// Returns the number of wire bytes.
    pub fn len(&self) -> (r: usize)
        ensures
            r == self.spec_bytes().len(),
    {
        self.symmetric.len() + self.scheme.len() + 6
    }

    /// Appends the wire bytes.
    pub fn marshal(&self, buf: &mut Vec<u8>)
        ensures
            final(buf)@ == old(buf)@ + self.spec_bytes(),
    {
        self.symmetric.marshal(buf);
        self.scheme.marshal(buf);
        push_u16(buf, self.key_bits);
        push_u32(buf, self.exponent);
        assert(buf@ =~= old(buf)@ + self.spec_bytes());
    }
}

impl TpmsEccParms {
    /// Returns the number of wire bytes.
    pub fn len(&self) -> (r: usize)
        ensures
            r == self.spec_bytes().len(),
    {
        self.symmetric.len() + self.scheme.len() + 4
    }

    /// Appends the wire bytes.
    pub fn marshal(&self, buf: &mut Vec<u8>)
        ensures
            final(buf)@ == old(buf)@ + self.spec_bytes(),
    {
        self.symmetric.marshal(buf);
        self.scheme.marshal(buf);
        push_u16(buf, self.curve_id.value());
        self.kdf.marshal(buf);
        assert(buf@ =~= old(buf)@ + self.spec_bytes());
    }
}

impl TpmuPublicParms {
    /// Returns the number of wire bytes.
    pub fn len(&self) -> (r: usize)
        ensures
            r == self.spec_bytes().len(),
    {
        match self {
            TpmuPublicParms::KeyedHash(p) => p.len(),
            TpmuPublicParms::SymCipher(p) => p.len(),
            TpmuPublicParms::Rsa(p) => p.len(),
            TpmuPublicParms::Ecc(p) => p.len(),
            TpmuPublicParms::Null => 0,
        }
    }

    /// Appends the wire bytes.
    pub fn marshal(&self, buf: &mut Vec<u8>)
        ensures
            final(buf)@ == old(buf)@ + self.spec_bytes(),
    {
        match self {
            TpmuPublicParms::KeyedHash(p) => p.marshal(buf),
            TpmuPublicParms::SymCipher(p) => p.marshal(buf),
            TpmuPublicParms::Rsa(p) => p.marshal(buf),
            TpmuPublicParms::Ecc(p) => p.marshal(buf),
            TpmuPublicParms::Null => {
                assert(buf@ =~= old(buf)@ + self.spec_bytes());
            },
        }
    }
}

impl TpmsEccPoint {
    /// Returns the number of wire bytes.
    pub fn len(&self) -> (r: usize)
        requires
            self@.fits(),
        ensures
            r == self@.spec_bytes().len(),
    {
        4 + self.x.len() + self.y.len()
    }

    /// Appends the wire bytes: both coordinates, each with its size.
    pub fn marshal(&self, buf: &mut Vec<u8>)
        ensures
            final(buf)@ == old(buf)@ + self@.spec_bytes(),
    {
        push_tpm2b(buf, &self.x);
        push_tpm2b(buf, &self.y);
        assert(buf@ =~= old(buf)@ + self@.spec_bytes());
    }
}

impl TpmuPublicId {
    /// Returns the number of wire bytes.
    pub fn len(&self) -> (r: usize)
        requires
            self@.fits(),
        ensures
            r == self@.spec_bytes().len(),
    {
        match self {
            TpmuPublicId::KeyedHash(d) | TpmuPublicId::SymCipher(d) | TpmuPublicId::Rsa(d) => 2 + d.len(),
            TpmuPublicId::Ecc(p) => p.len(),
            TpmuPublicId::Null => 0,
        }
    }

    /// Appends the wire bytes.
    pub fn marshal(&self, buf: &mut Vec<u8>)
        ensures
            final(buf)@ == old(buf)@ + self@.spec_bytes(),
    {
        match self {
            TpmuPublicId::KeyedHash(d) | TpmuPublicId::SymCipher(d) | TpmuPublicId::Rsa(d) => push_tpm2b(buf, d),
            TpmuPublicId::Ecc(p) => p.marshal(buf),
            TpmuPublicId::Null => {
                assert(buf@ =~= old(buf)@ + self@.spec_bytes());
            },
        }
    }
}

impl TpmtPublic {
    /// Returns the number of wire bytes.
    pub fn len(&self) -> (r: usize)
        requires
            self@.fits(),
        ensures
            r == self@.spec_bytes().len(),
    {
        let a = self.auth_policy.len();
        let p = self.parameters.len();
        let u = self.unique.len();
        proof {
            lemma_public_parms_len(self.parameters);
        }
        10 + a + p + u
    }

    /// Appends the wire bytes.
    pub fn marshal(&self, buf: &mut Vec<u8>)
        ensures
            final(buf)@ == old(buf)@ + self@.spec_bytes(),
    {
        push_u16(buf, self.object_type.value());
        push_u16(buf, self.name_alg.value());
        push_u32(buf, self.object_attributes.0);
        push_tpm2b(buf, &self.auth_policy);
        self.parameters.marshal(buf);
        self.unique.marshal(buf);
        assert(buf@ =~= old(buf)@ + self@.spec_bytes());
    }
}

impl TpmuSensitiveComposite {
    /// Returns the number of wire bytes.
    pub fn len(&self) -> (r: usize)
        requires
            self@.fits(),
        ensures
            r == self@.spec_bytes().len(),
    {
        match self {
            TpmuSensitiveComposite::Rsa(d) | TpmuSensitiveComposite::Ecc(d) | TpmuSensitiveComposite::Bits(d)
            | TpmuSensitiveComposite::Sym(d) => 2 + d.len(),
        }
    }

    /// Appends the wire bytes.
    pub fn marshal(&self, buf: &mut Vec<u8>)
        ensures
            final(buf)@ == old(buf)@ + self@.spec_bytes(),
    {
        match self {
            TpmuSensitiveComposite::Rsa(d) | TpmuSensitiveComposite::Ecc(d) | TpmuSensitiveComposite::Bits(d)
            | TpmuSensitiveComposite::Sym(d) => push_tpm2b(buf, d),
        }
    }
}

impl TpmtSensitive {
    /// Returns the number of wire bytes.
    pub fn len(&self) -> (r: usize)
        requires
            self@.fits(),
        ensures
            r == self@.spec_bytes().len(),
    {
        6 + self.auth_value.len() + self.seed_value.len() + self.sensitive.len()
    }

    /// Appends the wire bytes.
    pub fn marshal(&self, buf: &mut Vec<u8>)
        ensures
            final(buf)@ == old(buf)@ + self@.spec_bytes(),
    {
        push_u16(buf, self.sensitive_type.value());
        push_tpm2b(buf, &self.auth_value);
        push_tpm2b(buf, &self.seed_value);
        self.sensitive.marshal(buf);
        assert(buf@ =~= old(buf)@ + self@.spec_bytes());
    }
}

// ---------------------------------------------------------------------------
// Reading back what was written
// ---------------------------------------------------------------------------

/// A size-prefixed buffer that fits `cap`, written at `pos`, reads back.
pub proof fn lemma_read_tpm2b_at(data: Seq<u8>, cap: usize, s: Seq<u8>, pos: int)
    requires
        data.len() <= cap,
        data.len() <= u16::MAX,
        0 <= pos,
        pos + 2 + data.len() <= s.len(),
        s.subrange(pos, pos + 2 + data.len()) == spec_tpm2b_bytes(data),
    ensures
        spec_read_tpm2b(s, pos, cap) == Ok::<(Seq<u8>, int), TpmError>((data, pos + 2 + data.len())),
{
    let n = data.len() as u16;
    lemma_be16_roundtrip(n);
    let x = spec_tpm2b_bytes(data);
    lemma_subrange_of_eq(s, pos, x, 0, 2);
    assert(x.subrange(0, 2) =~= spec_be16_bytes(n));
    lemma_be16_at(s, pos, n);
    lemma_subrange_of_eq(s, pos, x, 2, data.len() as int);
    assert(x.subrange(2, 2 + data.len() as int) =~= data);
}

/// A `u32` written at `pos` reads back.
pub proof fn lemma_read_u32_at(v: u32, s: Seq<u8>, pos: int)
    requires
        0 <= pos,
        pos + 4 <= s.len(),
        s.subrange(pos, pos + 4) == spec_be32_bytes(v),
    ensures
        spec_read_u32(s, pos) == Ok::<(u32, int), TpmError>((v, pos + 4)),
{
    lemma_be32_at(s, pos, v);
}

/// A curve identifier written at `pos` reads back.
pub proof fn lemma_read_curve_at(c: TpmEccCurve, s: Seq<u8>, pos: int)
    requires
        0 <= pos,
        pos + 2 <= s.len(),
        s.subrange(pos, pos + 2) == spec_be16_bytes(c.spec_value()),
    ensures
        spec_read_curve(s, pos) == Ok::<(TpmEccCurve, int), TpmError>((c, pos + 2)),
{
    lemma_read_u16_of_bytes(s, pos, c.spec_value());
    lemma_ecc_curve_value_roundtrip(c);
}

/// Well-formed RSA parameters written at `pos` read back.
pub proof fn lemma_read_rsa_parms_at(p: TpmsRsaParms, s: Seq<u8>, pos: int)
    requires
        p.wf(),
        0 <= pos,
        pos + p.spec_bytes().len() <= s.len(),
        s.subrange(pos, pos + p.spec_bytes().len()) == p.spec_bytes(),
    ensures
        spec_read_rsa_parms(s, pos) == Ok::<(TpmsRsaParms, int), TpmError>((p, pos + p.spec_bytes().len())),
{
    let a = p.symmetric.spec_bytes();
    let b = p.scheme.spec_bytes();
    let c = spec_be16_bytes(p.key_bits);
    let d = spec_be32_bytes(p.exponent);
    lemma_be16_roundtrip(p.key_bits);
    crate::frame::codec::lemma_be32_roundtrip(p.exponent);
    lemma_split_run(s, pos, a + b + c, d);
    lemma_split_run(s, pos, a + b, c);
    lemma_split_run(s, pos, a, b);
    lemma_read_sym_def_at(p.symmetric, s, pos);
    lemma_read_rsa_scheme_at(p.scheme, s, pos + a.len());
    lemma_read_u16_of_bytes(s, pos + a.len() + b.len(), p.key_bits);
    lemma_read_u32_at(p.exponent, s, pos + a.len() + b.len() + 2);
}

/// Well-formed ECC parameters written at `pos` read back.
pub proof fn lemma_read_ecc_parms_at(p: TpmsEccParms, s: Seq<u8>, pos: int)
    requires
        p.wf(),
        0 <= pos,
        pos + p.spec_bytes().len() <= s.len(),
        s.subrange(pos, pos + p.spec_bytes().len()) == p.spec_bytes(),
    ensures
        spec_read_ecc_parms(s, pos) == Ok::<(TpmsEccParms, int), TpmError>((p, pos + p.spec_bytes().len())),
{
    let a = p.symmetric.spec_bytes();
    let b = p.scheme.spec_bytes();
    let c = spec_be16_bytes(p.curve_id.spec_value());
    let d = p.kdf.spec_bytes();
    lemma_split_run(s, pos, a + b + c, d);
    lemma_split_run(s, pos, a + b, c);
    lemma_split_run(s, pos, a, b);
    lemma_read_sym_def_at(p.symmetric, s, pos);
    lemma_read_ecc_scheme_at(p.scheme, s, pos + a.len());
    lemma_read_curve_at(p.curve_id, s, pos + a.len() + b.len());
    lemma_read_kdf_scheme_at(p.kdf, s, pos + a.len() + b.len() + 2);
}

/// The parameters that `tag` selects, written at `pos`, read back.
pub proof fn lemma_read_public_parms_at(tag: TpmAlgId, p: TpmuPublicParms, s: Seq<u8>, pos: int)
    requires
        parms_selects(tag, p),
        0 <= pos,
        pos + p.spec_bytes().len() <= s.len(),
        s.subrange(pos, pos + p.spec_bytes().len()) == p.spec_bytes(),
    ensures
        spec_read_public_parms(tag, s, pos) == Ok::<(TpmuPublicParms, int), TpmError>(
            (p, pos + p.spec_bytes().len()),
        ),
{
    match p {
        TpmuPublicParms::KeyedHash(k) => lemma_read_keyedhash_scheme_at(k.scheme, s, pos),
        TpmuPublicParms::SymCipher(c) => lemma_read_sym_def_at(c.sym, s, pos),
        TpmuPublicParms::Rsa(r) => lemma_read_rsa_parms_at(r, s, pos),
        TpmuPublicParms::Ecc(e) => lemma_read_ecc_parms_at(e, s, pos),
        TpmuPublicParms::Null => {},
    }
}

/// An ECC point that fits its buffers, written at `pos`, reads back.
pub proof fn lemma_read_ecc_point_at(p: EccPointView, s: Seq<u8>, pos: int)
    requires
        p.fits(),
        0 <= pos,
        pos + p.spec_bytes().len() <= s.len(),
        s.subrange(pos, pos + p.spec_bytes().len()) == p.spec_bytes(),
    ensures
        spec_read_ecc_point(s, pos) == Ok::<(EccPointView, int), TpmError>((p, pos + p.spec_bytes().len())),
{
    let a = spec_tpm2b_bytes(p.x);
    let b = spec_tpm2b_bytes(p.y);
    lemma_split_run(s, pos, a, b);
    lemma_read_tpm2b_at(p.x, MAX_ECC_KEY_BYTES, s, pos);
    lemma_read_tpm2b_at(p.y, MAX_ECC_KEY_BYTES, s, pos + a.len());
}

/// The unique identifier that `tag` selects, written at `pos`, reads back.
pub proof fn lemma_read_public_id_at(tag: TpmAlgId, u: PublicIdView, s: Seq<u8>, pos: int)
    requires
        unique_selects(tag, u),
        0 <= pos,
        pos + u.spec_bytes().len() <= s.len(),
        s.subrange(pos, pos + u.spec_bytes().len()) == u.spec_bytes(),
    ensures
        spec_read_public_id(tag, s, pos) == Ok::<(PublicIdView, int), TpmError>((u, pos + u.spec_bytes().len())),
{
    match u {
        PublicIdView::KeyedHash(d) => lemma_read_tpm2b_at(d, MAX_DIGEST_SIZE, s, pos),
        PublicIdView::SymCipher(d) => lemma_read_tpm2b_at(d, MAX_SYM_KEY_BYTES, s, pos),
        PublicIdView::Rsa(d) => lemma_read_tpm2b_at(d, MAX_RSA_KEY_BYTES, s, pos),
        PublicIdView::Ecc(p) => lemma_read_ecc_point_at(p, s, pos),
        PublicIdView::Null => {},
    }
}

/// A well-formed public area written at `pos` reads back.
#[verifier::spinoff_prover]
#[verifier::rlimit(40)]
pub proof fn lemma_read_public_at(v: PublicView, s: Seq<u8>, pos: int)
    requires
        v.wf(),
        0 <= pos,
        pos + v.spec_bytes().len() <= s.len(),
        s.subrange(pos, pos + v.spec_bytes().len()) == v.spec_bytes(),
    ensures
        spec_read_public(s, pos) == Ok::<(PublicView, int), TpmError>((v, pos + v.spec_bytes().len())),
{
    let a = spec_alg_bytes(v.object_type);
    let b = spec_alg_bytes(v.name_alg);
    let c = spec_be32_bytes(v.object_attributes);
    let d = spec_tpm2b_bytes(v.auth_policy);
    let e = v.parameters.spec_bytes();
    let f = v.unique.spec_bytes();
    crate::frame::codec::lemma_be32_roundtrip(v.object_attributes);
    lemma_split_run(s, pos, a + b + c + d + e, f);
    lemma_split_run(s, pos, a + b + c + d, e);
    lemma_split_run(s, pos, a + b + c, d);
    lemma_split_run(s, pos, a + b, c);
    lemma_split_run(s, pos, a, b);
    lemma_read_alg_of_bytes(s, pos, v.object_type);
    lemma_read_alg_of_bytes(s, pos + 2, v.name_alg);
    lemma_read_u32_at(v.object_attributes, s, pos + 4);
    lemma_read_tpm2b_at(v.auth_policy, MAX_DIGEST_SIZE, s, pos + 8);
    lemma_read_public_parms_at(v.object_type, v.parameters, s, pos + 8 + d.len());
    lemma_read_public_id_at(v.object_type, v.unique, s, pos + 8 + d.len() + e.len());
}

/// Unmarshaling the bytes of a well-formed public area, followed by
/// anything, gives it back and stops after its bytes.
pub proof fn lemma_public_roundtrip(v: PublicView, rest: Seq<u8>)
    requires
        v.wf(),
    ensures
        spec_read_public(v.spec_bytes() + rest, 0) == Ok::<(PublicView, int), TpmError>(
            (v, v.spec_bytes().len() as int),
        ),
{
    let s = v.spec_bytes() + rest;
    assert(s.subrange(0, v.spec_bytes().len() as int) =~= v.spec_bytes());
    lemma_read_public_at(v, s, 0);
}

/// The key material that `tag` selects, written at `pos`, reads back.
pub proof fn lemma_read_sensitive_composite_at(tag: TpmAlgId, c: SensitiveCompositeView, s: Seq<u8>, pos: int)
    requires
        sensitive_selects(tag, c),
        0 <= pos,
        pos + c.spec_bytes().len() <= s.len(),
        s.subrange(pos, pos + c.spec_bytes().len()) == c.spec_bytes(),
    ensures
        spec_read_sensitive_composite(tag, s, pos) == Ok::<(SensitiveCompositeView, int), TpmError>(
            (c, pos + c.spec_bytes().len()),
        ),
{
    match c {
        SensitiveCompositeView::Rsa(d) => lemma_read_tpm2b_at(d, MAX_RSA_PRIVATE_BYTES, s, pos),
        SensitiveCompositeView::Ecc(d) => lemma_read_tpm2b_at(d, MAX_ECC_KEY_BYTES, s, pos),
        SensitiveCompositeView::Bits(d) => lemma_read_tpm2b_at(d, MAX_SENSITIVE_DATA, s, pos),
        SensitiveCompositeView::Sym(d) => lemma_read_tpm2b_at(d, MAX_SYM_KEY_BYTES, s, pos),
    }
}

/// A well-formed sensitive area written at `pos` reads back.
pub proof fn lemma_read_sensitive_at(v: SensitiveView, s: Seq<u8>, pos: int)
    requires
        v.wf(),
        0 <= pos,
        pos + v.spec_bytes().len() <= s.len(),
        s.subrange(pos, pos + v.spec_bytes().len()) == v.spec_bytes(),
    ensures
        spec_read_sensitive(s, pos) == Ok::<(SensitiveView, int), TpmError>((v, pos + v.spec_bytes().len())),
{
    let a = spec_alg_bytes(v.sensitive_type);
    let b = spec_tpm2b_bytes(v.auth_value);
    let c = spec_tpm2b_bytes(v.seed_value);
    let d = v.sensitive.spec_bytes();
    lemma_split_run(s, pos, a + b + c, d);
    lemma_split_run(s, pos, a + b, c);
    lemma_split_run(s, pos, a, b);
    lemma_read_alg_of_bytes(s, pos, v.sensitive_type);
    lemma_read_tpm2b_at(v.auth_value, MAX_DIGEST_SIZE, s, pos + 2);
    lemma_read_tpm2b_at(v.seed_value, MAX_DIGEST_SIZE, s, pos + 2 + b.len());
    lemma_read_sensitive_composite_at(v.sensitive_type, v.sensitive, s, pos + 2 + b.len() + c.len());
}

/// Unmarshaling the bytes of a well-formed sensitive area, followed by
/// anything, gives it back and stops after its bytes.
pub proof fn lemma_sensitive_roundtrip(v: SensitiveView, rest: Seq<u8>)
    requires
        v.wf(),
    ensures
        spec_read_sensitive(v.spec_bytes() + rest, 0) == Ok::<(SensitiveView, int), TpmError>(
            (v, v.spec_bytes().len() as int),
        ),
{
    let s = v.spec_bytes() + rest;
    assert(s.subrange(0, v.spec_bytes().len() as int) =~= v.spec_bytes());
    lemma_read_sensitive_at(v, s, 0);
}

} // verus!
