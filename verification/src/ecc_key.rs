//! Elliptic curve keys from outside the TPM: the curve and public point that
//! a TPM public area holds of them.

use crate::constant::MAX_ECC_KEY_BYTES;
use crate::data::alg::TpmAlgId;
use crate::data::curve::TpmEccCurve;
use crate::data::public::{
    EccPointView, PublicIdView, PublicView, TpmsEccParms, TpmsEccPoint, TpmtPublic, TpmuPublicId,
    TpmuPublicParms,
};
use crate::data::schemes::{TpmsSchemeHash, TpmtEccScheme, TpmtKdfScheme, TpmuAsymScheme};
use crate::template::{PublicTemplateView, TpmPublicTemplate};
use crate::ecc::TpmEllipticCurve;
use crate::error::TpmError;
use crate::hash::{TpmCryptoError, TpmPublicAreaField};
use crate::key::{pkey_ec_curve_nid, pkey_ec_public_point, UNCOMPRESSED_POINT_TAG};
use vstd::prelude::*;
use vstd::slice::{slice_subrange, slice_to_vec};

verus! {

impl TpmEllipticCurve {
    /// OpenSSL's object identifier of the curve, where OpenSSL supports it;
    /// the identifiers are those of OpenSSL 1.1 and later.
    pub open spec fn spec_nid(self) -> Option<i32> {
        match self {
            TpmEllipticCurve::NistP192 => Some(409),
            TpmEllipticCurve::NistP224 => Some(713),
            TpmEllipticCurve::NistP256 => Some(415),
            TpmEllipticCurve::NistP384 => Some(715),
            TpmEllipticCurve::NistP521 => Some(716),
            TpmEllipticCurve::BpP256R1 => Some(927),
            TpmEllipticCurve::BpP384R1 => Some(931),
            TpmEllipticCurve::BpP512R1 => Some(933),
            TpmEllipticCurve::Sm2P256 => Some(1172),
            _ => None,
        }
    }

    /// The curve with OpenSSL's object identifier `nid`, if any.
    pub open spec fn spec_from_nid(nid: i32) -> Option<TpmEllipticCurve> {
        if nid == 409 {
            Some(TpmEllipticCurve::NistP192)
        } else if nid == 713 {
            Some(TpmEllipticCurve::NistP224)
        } else if nid == 415 {
            Some(TpmEllipticCurve::NistP256)
        } else if nid == 715 {
            Some(TpmEllipticCurve::NistP384)
        } else if nid == 716 {
            Some(TpmEllipticCurve::NistP521)
        } else if nid == 927 {
            Some(TpmEllipticCurve::BpP256R1)
        } else if nid == 931 {
            Some(TpmEllipticCurve::BpP384R1)
        } else if nid == 933 {
            Some(TpmEllipticCurve::BpP512R1)
        } else if nid == 1172 {
            Some(TpmEllipticCurve::Sm2P256)
        } else {
            None
        }
    }

    /// The size in bits of the field of the curve, for the curves OpenSSL
    /// supports.
    pub open spec fn spec_degree(self) -> nat {
        match self {
            TpmEllipticCurve::NistP192 => 192,
            TpmEllipticCurve::NistP224 => 224,
            TpmEllipticCurve::NistP256 => 256,
            TpmEllipticCurve::NistP384 => 384,
            TpmEllipticCurve::NistP521 => 521,
            TpmEllipticCurve::BpP256R1 => 256,
            TpmEllipticCurve::BpP384R1 => 384,
            TpmEllipticCurve::BpP512R1 => 512,
            TpmEllipticCurve::Sm2P256 => 256,
            _ => 0,
        }
    }

    /// The size in bytes of a coordinate of a point on the curve.
    pub open spec fn spec_coord_len(self) -> nat {
        (self.spec_degree() + 7) / 8
    }

    /// Returns OpenSSL's object identifier of the curve; a curve that
    /// OpenSSL does not support is `InvalidEccCurve`.
    pub fn to_nid(self) -> (r: Result<i32, TpmCryptoError>)
        ensures
            match self.spec_nid() {
                Some(n) => r == Ok::<i32, TpmCryptoError>(n),
                None => r == Err::<i32, TpmCryptoError>(
                    TpmCryptoError::InvalidEccCurve(self.spec_ecc_curve()),
                ),
            },
    {
        match self {
            TpmEllipticCurve::NistP192 => Ok(409),
            TpmEllipticCurve::NistP224 => Ok(713),
            TpmEllipticCurve::NistP256 => Ok(415),
            TpmEllipticCurve::NistP384 => Ok(715),
            TpmEllipticCurve::NistP521 => Ok(716),
            TpmEllipticCurve::BpP256R1 => Ok(927),
            TpmEllipticCurve::BpP384R1 => Ok(931),
            TpmEllipticCurve::BpP512R1 => Ok(933),
            TpmEllipticCurve::Sm2P256 => Ok(1172),
            _ => Err(TpmCryptoError::InvalidEccCurve(self.to_ecc_curve())),
        }
    }

    /// Returns the curve with OpenSSL's object identifier `nid`; another
    /// identifier is `InvalidEccNid`.
    pub fn try_from_nid(nid: i32) -> (r: Result<TpmEllipticCurve, TpmCryptoError>)
        ensures
            match TpmEllipticCurve::spec_from_nid(nid) {
                Some(c) => r == Ok::<TpmEllipticCurve, TpmCryptoError>(c),
                None => r == Err::<TpmEllipticCurve, TpmCryptoError>(
                    TpmCryptoError::InvalidEccNid(nid),
                ),
            },
    {
        if nid == 409 {
            Ok(TpmEllipticCurve::NistP192)
        } else if nid == 713 {
            Ok(TpmEllipticCurve::NistP224)
        } else if nid == 415 {
            Ok(TpmEllipticCurve::NistP256)
        } else if nid == 715 {
            Ok(TpmEllipticCurve::NistP384)
        } else if nid == 716 {
            Ok(TpmEllipticCurve::NistP521)
        } else if nid == 927 {
            Ok(TpmEllipticCurve::BpP256R1)
        } else if nid == 931 {
            Ok(TpmEllipticCurve::BpP384R1)
        } else if nid == 933 {
            Ok(TpmEllipticCurve::BpP512R1)
        } else if nid == 1172 {
            Ok(TpmEllipticCurve::Sm2P256)
        } else {
            Err(TpmCryptoError::InvalidEccNid(nid))
        }
    }
}

impl TpmEllipticCurve {
    /// The curve of a curve identifier; `TPM_ECC_NONE` names none.
    pub open spec fn spec_from_ecc_curve_id(curve: TpmEccCurve) -> Option<TpmEllipticCurve> {
        match curve {
            TpmEccCurve::NistP192 => Some(TpmEllipticCurve::NistP192),
            TpmEccCurve::NistP224 => Some(TpmEllipticCurve::NistP224),
            TpmEccCurve::NistP256 => Some(TpmEllipticCurve::NistP256),
            TpmEccCurve::NistP384 => Some(TpmEllipticCurve::NistP384),
            TpmEccCurve::NistP521 => Some(TpmEllipticCurve::NistP521),
            TpmEccCurve::BnP256 => Some(TpmEllipticCurve::BnP256),
            TpmEccCurve::BnP638 => Some(TpmEllipticCurve::BnP638),
            TpmEccCurve::Sm2P256 => Some(TpmEllipticCurve::Sm2P256),
            TpmEccCurve::BpP256R1 => Some(TpmEllipticCurve::BpP256R1),
            TpmEccCurve::BpP384R1 => Some(TpmEllipticCurve::BpP384R1),
            TpmEccCurve::BpP512R1 => Some(TpmEllipticCurve::BpP512R1),
            TpmEccCurve::Curve25519 => Some(TpmEllipticCurve::Curve25519),
            TpmEccCurve::Curve448 => Some(TpmEllipticCurve::Curve448),
            TpmEccCurve::NoCurve => None,
        }
    }
}

/// The curve of a curve's identifier is that curve.
pub proof fn lemma_ecc_curve_id_roundtrip(c: TpmEllipticCurve)
    ensures
        TpmEllipticCurve::spec_from_ecc_curve_id(c.spec_ecc_curve()) == Some(c),
{
}

/// Every curve with an identifier is the curve of that identifier.
pub proof fn lemma_nid_roundtrip(c: TpmEllipticCurve)
    ensures
        c.spec_nid() matches Some(n) ==> TpmEllipticCurve::spec_from_nid(n) == Some(c),
        c.spec_nid() matches Some(n) ==> 0 < c.spec_degree(),
{
}

/// OpenSSL's object identifiers of the curves and the sizes of their
/// fields: `NID_X9_62_prime192v1` (409), `NID_secp224r1` (713),
/// `NID_X9_62_prime256v1` (415), `NID_secp384r1` (715), `NID_secp521r1`
/// (716), `NID_brainpoolP256r1` (927), `NID_brainpoolP384r1` (931),
/// `NID_brainpoolP512r1` (933) and `NID_sm2` (1172); each names the curve of
/// the same name and size.
pub proof fn lemma_curve_nids()
    ensures
        TpmEllipticCurve::NistP192.spec_nid() == Some(409i32),
        TpmEllipticCurve::spec_from_nid(409i32) == Some(TpmEllipticCurve::NistP192),
        TpmEllipticCurve::NistP192.spec_degree() == 192,
        TpmEllipticCurve::NistP224.spec_nid() == Some(713i32),
        TpmEllipticCurve::spec_from_nid(713i32) == Some(TpmEllipticCurve::NistP224),
        TpmEllipticCurve::NistP224.spec_degree() == 224,
        TpmEllipticCurve::NistP256.spec_nid() == Some(415i32),
        TpmEllipticCurve::spec_from_nid(415i32) == Some(TpmEllipticCurve::NistP256),
        TpmEllipticCurve::NistP256.spec_degree() == 256,
        TpmEllipticCurve::NistP384.spec_nid() == Some(715i32),
        TpmEllipticCurve::spec_from_nid(715i32) == Some(TpmEllipticCurve::NistP384),
        TpmEllipticCurve::NistP384.spec_degree() == 384,
        TpmEllipticCurve::NistP521.spec_nid() == Some(716i32),
        TpmEllipticCurve::spec_from_nid(716i32) == Some(TpmEllipticCurve::NistP521),
        TpmEllipticCurve::NistP521.spec_degree() == 521,
        TpmEllipticCurve::BpP256R1.spec_nid() == Some(927i32),
        TpmEllipticCurve::spec_from_nid(927i32) == Some(TpmEllipticCurve::BpP256R1),
        TpmEllipticCurve::BpP256R1.spec_degree() == 256,
        TpmEllipticCurve::BpP384R1.spec_nid() == Some(931i32),
        TpmEllipticCurve::spec_from_nid(931i32) == Some(TpmEllipticCurve::BpP384R1),
        TpmEllipticCurve::BpP384R1.spec_degree() == 384,
        TpmEllipticCurve::BpP512R1.spec_nid() == Some(933i32),
        TpmEllipticCurve::spec_from_nid(933i32) == Some(TpmEllipticCurve::BpP512R1),
        TpmEllipticCurve::BpP512R1.spec_degree() == 512,
        TpmEllipticCurve::Sm2P256.spec_nid() == Some(1172i32),
        TpmEllipticCurve::spec_from_nid(1172i32) == Some(TpmEllipticCurve::Sm2P256),
        TpmEllipticCurve::Sm2P256.spec_degree() == 256,
{
}

/// The degree of the group of the curve with OpenSSL's object identifier
/// `nid`, by `EcGroup::from_curve_name` and `EcGroupRef::degree`: the size of
/// the curve's field in bits, stated for each curve this library knows. A
/// group that OpenSSL cannot make is a `Crypto` error.
#[verifier::external_body]
fn ec_group_degree(nid: i32) -> (r: Result<u32, TpmCryptoError>)
    ensures
        TpmEllipticCurve::spec_from_nid(nid) matches Some(c) ==> (r matches Ok(d) ==> d
            == c.spec_degree()),
        r matches Err(e) ==> e == TpmCryptoError::Crypto,
{
    let nid = openssl::nid::Nid::from_raw(nid);
    let group = openssl::ec::EcGroup::from_curve_name(nid).map_err(|_| TpmCryptoError::Crypto)?;
    Ok(group.degree())
}

/// Returns the size in bytes of a coordinate on the curve with the
/// identifier `nid`.
fn ecc_coord_len(nid: i32) -> (r: Result<usize, TpmCryptoError>)
    ensures
        TpmEllipticCurve::spec_from_nid(nid) matches Some(c) ==> (r matches Ok(n) ==> n
            == c.spec_coord_len()),
        r matches Err(e) ==> e == TpmCryptoError::Crypto,
{
    let degree = ec_group_degree(nid)?;
    let len: u64 = (degree as u64 + 7) / 8;
    Ok(len as usize)
}

/// The point of an uncompressed public point encoding (`0x04`, then both
/// coordinates) with coordinates of `expected_len` bytes. An encoding
/// without the tag, or whose halves after the tag are not both
/// `expected_len` long, is `InvalidEccPoint`; coordinates longer than an ECC
/// parameter are an `Unmarshal` error.
pub open spec fn spec_make_point(pub_bytes: Seq<u8>, expected_len: nat, curve: TpmEllipticCurve) -> Result<
    EccPointView,
    TpmCryptoError,
> {
    let point_len: int = if pub_bytes.len() == 0 {
        0
    } else {
        pub_bytes.len() - 1
    };
    let x_len = point_len / 2;
    let y_len = point_len - x_len;
    if pub_bytes.len() == 0 || pub_bytes[0] != UNCOMPRESSED_POINT_TAG || x_len != expected_len
        || y_len != expected_len {
        Err(
            TpmCryptoError::InvalidEccPoint {
                curve: curve.spec_ecc_curve(),
                x_len: x_len as usize,
                y_len: y_len as usize,
                expected_len: expected_len as usize,
            },
        )
    } else if expected_len > MAX_ECC_KEY_BYTES {
        Err(
            TpmCryptoError::Unmarshal(
                TpmError::TooManyItems {
                    offset: 0,
                    limit: MAX_ECC_KEY_BYTES,
                    actual: expected_len as usize,
                },
            ),
        )
    } else {
        Ok(
            EccPointView {
                x: pub_bytes.subrange(1, 1 + expected_len as int),
                y: pub_bytes.subrange(1 + expected_len as int, 1 + 2 * expected_len as int),
            },
        )
    }
}

/// Returns the point of an uncompressed public point encoding with
/// coordinates of `expected_len` bytes.
pub fn tpm_make_point(pub_bytes: &[u8], expected_len: usize, curve: TpmEllipticCurve) -> (r: Result<
    TpmsEccPoint,
    TpmCryptoError,
>)
    ensures
        match spec_make_point(pub_bytes@, expected_len as nat, curve) {
            Ok(v) => r matches Ok(p) && p@ == v,
            Err(e) => r == Err::<TpmsEccPoint, TpmCryptoError>(e),
        },
{
    let point_len: usize = if pub_bytes.len() == 0 {
        0
    } else {
        pub_bytes.len() - 1
    };
    let x_len = point_len / 2;
    let y_len = point_len - x_len;
    if pub_bytes.len() == 0 || pub_bytes[0] != UNCOMPRESSED_POINT_TAG || x_len != expected_len
        || y_len != expected_len {
        return Err(
            TpmCryptoError::InvalidEccPoint {
                curve: curve.to_ecc_curve(),
                x_len,
                y_len,
                expected_len,
            },
        );
    }
    if expected_len > MAX_ECC_KEY_BYTES {
        return Err(
            TpmCryptoError::Unmarshal(
                TpmError::TooManyItems {
                    offset: 0,
                    limit: MAX_ECC_KEY_BYTES,
                    actual: expected_len,
                },
            ),
        );
    }
    let x = slice_subrange(pub_bytes, 1, 1 + expected_len);
    let y = slice_subrange(pub_bytes, 1 + expected_len, 1 + 2 * expected_len);
    Ok(TpmsEccPoint { x: slice_to_vec(x), y: slice_to_vec(y) })
}

/// The parts of the elliptic curve private key that the DER bytes `der`
/// hold, as OpenSSL reads them: the identifier of its curve, if the curve has
/// one, its public point in uncompressed form, and its private scalar; `None`
/// when OpenSSL reads no elliptic curve private key from them.
pub uninterp spec fn openssl_der_ec_parts(der: Seq<u8>) -> Option<(Option<i32>, Seq<u8>, Seq<u8>)>;

/// Reads an elliptic curve private key from DER with
/// `PKey::private_key_from_der` and `PKey::ec_key`, and returns its parts:
/// `EcGroupRef::curve_name` of its group, `EcPointRef::to_bytes` of its
/// public key in uncompressed form, and `BigNumRef::to_vec` of its private
/// key. Bytes from which OpenSSL reads no elliptic curve private key are a
/// `Crypto` error. What comes back is a function of the DER bytes, named
/// `openssl_der_ec_parts`. Left unsaid: OpenSSL also fails when it cannot
/// allocate memory (for the `BigNumContext` or the point encoding); that
/// failure is taken as not happening.
#[verifier::external_body]
fn der_ec_parts(der: &[u8]) -> (r: Result<(Option<i32>, Vec<u8>, Vec<u8>), TpmCryptoError>)
    ensures
        match openssl_der_ec_parts(der@) {
            None => r == Err::<(Option<i32>, Vec<u8>, Vec<u8>), TpmCryptoError>(
                TpmCryptoError::Crypto,
            ),
            Some(t) => r matches Ok(u) && (u.0, u.1@, u.2@) == t,
        },
{
    let pkey = openssl::pkey::PKey::private_key_from_der(der).map_err(|_| TpmCryptoError::Crypto)?;
    let ec = pkey.ec_key().map_err(|_| TpmCryptoError::Crypto)?;
    let mut ctx = openssl::bn::BigNumContext::new().map_err(|_| TpmCryptoError::Crypto)?;
    let form = openssl::ec::PointConversionForm::UNCOMPRESSED;
    let point = ec.public_key().to_bytes(ec.group(), form, &mut ctx).map_err(|_| TpmCryptoError::Crypto)?;
    Ok((ec.group().curve_name().map(|n| n.as_raw()), point, ec.private_key().to_vec()))
}

/// An elliptic curve key from outside the TPM, as plain values.
pub struct EccKeyView {
    pub curve: TpmEllipticCurve,
    pub unique: EccPointView,
}

/// The public parts of an elliptic curve key: its curve and its point, whose
/// coordinates have the size of the curve.
#[derive(Debug)]
pub struct TpmEccExternalKey {
    curve: TpmEllipticCurve,
    unique: TpmsEccPoint,
}

impl View for TpmEccExternalKey {
    type V = EccKeyView;

    closed spec fn view(&self) -> EccKeyView {
        EccKeyView { curve: self.curve, unique: self.unique@ }
    }
}

/// The curve and point of an ECC public area: the object must be an ECC key
/// (else `InvalidPublicArea` naming the object type), with ECC parameters
/// (else naming the parameters) and an ECC point (else naming the unique
/// identifier), on a curve (else `InvalidEccCurve`).
pub open spec fn spec_ecc_key_shape(p: PublicView) -> Result<
    (TpmEllipticCurve, EccPointView),
    TpmCryptoError,
> {
    if p.object_type != TpmAlgId::Ecc {
        Err(
            TpmCryptoError::InvalidPublicArea {
                object_type: p.object_type,
                field: TpmPublicAreaField::ObjectType,
            },
        )
    } else {
        match p.parameters {
            TpmuPublicParms::Ecc(params) => match p.unique {
                PublicIdView::Ecc(point) => match TpmEllipticCurve::spec_from_ecc_curve_id(
                    params.curve_id,
                ) {
                    Some(c) => Ok((c, point)),
                    None => Err(TpmCryptoError::InvalidEccCurve(params.curve_id)),
                },
                _ => Err(
                    TpmCryptoError::InvalidPublicArea {
                        object_type: p.object_type,
                        field: TpmPublicAreaField::Unique,
                    },
                ),
            },
            _ => Err(
                TpmCryptoError::InvalidPublicArea {
                    object_type: p.object_type,
                    field: TpmPublicAreaField::Parameters,
                },
            ),
        }
    }
}

/// The public area of an ECC key made from a template: an ECDH key of the
/// template's name algorithm, attributes, policy and symmetric algorithm, with
/// no key derivation scheme.
pub open spec fn spec_ecc_public_of(k: EccKeyView, t: PublicTemplateView) -> PublicView {
    PublicView {
        object_type: TpmAlgId::Ecc,
        name_alg: t.name_alg,
        object_attributes: t.object_attributes,
        auth_policy: t.auth_policy,
        parameters: TpmuPublicParms::Ecc(
            TpmsEccParms {
                symmetric: t.symmetric,
                scheme: TpmtEccScheme {
                    scheme: TpmAlgId::Ecdh,
                    details: TpmuAsymScheme::Hash(TpmsSchemeHash { hash_alg: t.name_alg }),
                },
                curve_id: k.curve.spec_ecc_curve(),
                kdf: TpmtKdfScheme { scheme: TpmAlgId::Null },
            },
        ),
        unique: PublicIdView::Ecc(k.unique),
    }
}

/// The public area made of an ECC key holds that key's curve and point,
/// whatever the template.
pub proof fn lemma_ecc_public_roundtrip(k: EccKeyView, t: PublicTemplateView)
    ensures
        spec_ecc_key_shape(spec_ecc_public_of(k, t)) == Ok::<
            (TpmEllipticCurve, EccPointView),
            TpmCryptoError,
        >((k.curve, k.unique)),
{
    lemma_ecc_curve_id_roundtrip(k.curve);
}

impl TpmEccExternalKey {
    /// The point fits the ECC parameter buffers.
    #[verifier::type_invariant]
    spec fn key_inv(self) -> bool {
        self.unique@.x.len() <= MAX_ECC_KEY_BYTES && self.unique@.y.len() <= MAX_ECC_KEY_BYTES
    }

    /// Creates the public parts of an ECC key after checking that OpenSSL
    /// supports the curve (else `InvalidEccCurve`) and that both coordinates
    /// have the size of the curve (else `InvalidEccPoint`). OpenSSL's failure
    /// to make the curve's group is a `Crypto` error.
    pub fn try_new(curve: TpmEllipticCurve, unique: TpmsEccPoint) -> (r: Result<
        Self,
        TpmCryptoError,
    >)
        requires
            unique@.x.len() <= MAX_ECC_KEY_BYTES,
            unique@.y.len() <= MAX_ECC_KEY_BYTES,
        ensures
            curve.spec_nid() is None ==> r == Err::<Self, TpmCryptoError>(
                TpmCryptoError::InvalidEccCurve(curve.spec_ecc_curve()),
            ),
            r matches Ok(k) ==> k@ == (EccKeyView { curve, unique: unique@ }) && unique@.x.len()
                == curve.spec_coord_len() && unique@.y.len() == curve.spec_coord_len(),
            r matches Err(TpmCryptoError::InvalidEccPoint { curve: c, x_len, y_len, expected_len })
                ==> c == curve.spec_ecc_curve() && x_len == unique@.x.len() && y_len
                == unique@.y.len() && expected_len == curve.spec_coord_len() && (x_len
                != expected_len || y_len != expected_len),
            r matches Err(e) ==> (e is InvalidEccCurve || e is InvalidEccPoint || e
                == TpmCryptoError::Crypto),
            r matches Err(TpmCryptoError::InvalidEccCurve(_)) ==> curve.spec_nid() is None,
    {
        let nid = curve.to_nid()?;
        proof {
            lemma_nid_roundtrip(curve);
        }
        let coord_len = ecc_coord_len(nid)?;
        if unique.x.len() != coord_len || unique.y.len() != coord_len {
            return Err(
                TpmCryptoError::InvalidEccPoint {
                    curve: curve.to_ecc_curve(),
                    x_len: unique.x.len(),
                    y_len: unique.y.len(),
                    expected_len: coord_len,
                },
            );
        }
        Ok(TpmEccExternalKey { curve, unique })
    }

    /// Returns the curve of the key.
    pub fn curve(&self) -> (r: TpmEllipticCurve)
        ensures
            r == self@.curve,
    {
        self.curve
    }

    /// Returns the public point of the key.
    pub fn unique(&self) -> (r: &TpmsEccPoint)
        ensures
            r@ == self@.unique,
            r@.x.len() <= MAX_ECC_KEY_BYTES,
            r@.y.len() <= MAX_ECC_KEY_BYTES,
    {
        proof {
            use_type_invariant(self);
        }
        &self.unique
    }

    /// Returns the public area of the key: an ECDH key of the template's name
    /// algorithm, attributes, policy and symmetric algorithm, with no key
    /// derivation scheme.
    pub fn to_public(&self, template: &TpmPublicTemplate) -> (r: TpmtPublic)
        ensures
            r@ == spec_ecc_public_of(self@, template@),
            r@.fits(),
    {
        proof {
            use_type_invariant(self);
        }
        let name_alg = template.name_alg();
        TpmtPublic {
            object_type: TpmAlgId::Ecc,
            name_alg,
            object_attributes: template.object_attributes(),
            auth_policy: template.auth_policy(),
            parameters: TpmuPublicParms::Ecc(
                TpmsEccParms {
                    symmetric: template.symmetric(),
                    scheme: TpmtEccScheme {
                        scheme: TpmAlgId::Ecdh,
                        details: TpmuAsymScheme::Hash(TpmsSchemeHash { hash_alg: name_alg }),
                    },
                    curve_id: self.curve.to_ecc_curve(),
                    kdf: TpmtKdfScheme { scheme: TpmAlgId::Null },
                },
            ),
            unique: TpmuPublicId::Ecc(
                TpmsEccPoint {
                    x: slice_to_vec(self.unique.x.as_slice()),
                    y: slice_to_vec(self.unique.y.as_slice()),
                },
            ),
        }
    }

    /// Returns the key of an ECC public area: its curve and point, checked
    /// as `try_new` checks them.
    pub fn try_from_public(public: &TpmtPublic) -> (r: Result<Self, TpmCryptoError>)
        requires
            public@.fits(),
        ensures
            match spec_ecc_key_shape(public@) {
                Err(e) => r == Err::<Self, TpmCryptoError>(e),
                Ok((c, point)) => {
                    &&& c.spec_nid() is None ==> r == Err::<Self, TpmCryptoError>(
                        TpmCryptoError::InvalidEccCurve(c.spec_ecc_curve()),
                    )
                    &&& r matches Ok(k) ==> k@ == (EccKeyView { curve: c, unique: point })
                        && point.x.len() == c.spec_coord_len() && point.y.len()
                        == c.spec_coord_len()
                    &&& r matches Err(e) ==> (e is InvalidEccCurve || e is InvalidEccPoint || e
                        == TpmCryptoError::Crypto)
                },
            },
    {
        if public.object_type != TpmAlgId::Ecc {
            return Err(
                TpmCryptoError::InvalidPublicArea {
                    object_type: public.object_type,
                    field: TpmPublicAreaField::ObjectType,
                },
            );
        }
        let params = match &public.parameters {
            TpmuPublicParms::Ecc(params) => params,
            _ => {
                return Err(
                    TpmCryptoError::InvalidPublicArea {
                        object_type: public.object_type,
                        field: TpmPublicAreaField::Parameters,
                    },
                );
            },
        };
        let point = match &public.unique {
            TpmuPublicId::Ecc(point) => point,
            _ => {
                return Err(
                    TpmCryptoError::InvalidPublicArea {
                        object_type: public.object_type,
                        field: TpmPublicAreaField::Unique,
                    },
                );
            },
        };
        let curve = TpmEllipticCurve::try_from_ecc_curve(params.curve_id)?;
        proof {
            lemma_ecc_curve_id_roundtrip(curve);
        }
        let unique = TpmsEccPoint {
            x: slice_to_vec(point.x.as_slice()),
            y: slice_to_vec(point.y.as_slice()),
        };
        Self::try_new(curve, unique)
    }

    /// Returns the key of the parts that OpenSSL reports of an elliptic curve
    /// key: the identifier of its curve (none is `InvalidEccNid(0)`, an
    /// unknown one `InvalidEccNid`) and its public point, read from its
    /// uncompressed encoding as `tpm_make_point` reads it.
    ///
    /// The coordinate size of the curve comes from OpenSSL; where OpenSSL
    /// fails to make the curve's group the result is a `Crypto` error, and
    /// otherwise it is `spec_ecc_key_from_parts`.
    pub fn from_pkey_parts(nid: Option<i32>, point: &[u8]) -> (r: Result<Self, TpmCryptoError>)
        ensures
            spec_ecc_key_from_parts(nid, point@) matches Err(TpmCryptoError::InvalidEccNid(_))
                ==> r_matches_key(r, spec_ecc_key_from_parts(nid, point@)),
            (r matches Err(e) && e == TpmCryptoError::Crypto) || r_matches_key(
                r,
                spec_ecc_key_from_parts(nid, point@),
            ),
    {
        let nid = match nid {
            Some(n) => n,
            None => {
                return Err(TpmCryptoError::InvalidEccNid(0));
            },
        };
        let curve = TpmEllipticCurve::try_from_nid(nid)?;
        proof {
            lemma_curve_of_nid(nid);
        }
        let expected_len = ecc_coord_len(nid)?;
        let unique = tpm_make_point(point, expected_len, curve)?;
        Self::try_new(curve, unique)
    }

    /// Returns the key of an elliptic curve key held by OpenSSL: the key that
    /// `from_pkey_parts` makes of its curve identifier and its uncompressed
    /// public point. Failures of OpenSSL are `Crypto` errors.
    pub fn try_from_pkey(pkey: &openssl::pkey::PKey<openssl::pkey::Private>) -> (r: Result<
        Self,
        TpmCryptoError,
    >)
        ensures
            r matches Ok(k) ==> exists|nid: Option<i32>, bytes: Seq<u8>|
                #[trigger] spec_ecc_key_from_parts(nid, bytes) == Ok::<EccKeyView, TpmCryptoError>(
                    k@,
                ),
            r matches Err(e) ==> (e is Crypto || e is InvalidEccNid || e is InvalidEccPoint || e is Unmarshal),
    {
        let nid = pkey_ec_curve_nid(pkey)?;
        let pub_bytes = pkey_ec_public_point(pkey)?;
        let r = Self::from_pkey_parts(nid, pub_bytes.as_slice());
        proof {
            lemma_ecc_key_from_parts_errors(nid, pub_bytes@);
        }
        assert(r matches Ok(k) ==> spec_ecc_key_from_parts(nid, pub_bytes@) == Ok::<
            EccKeyView,
            TpmCryptoError,
        >(k@));
        r
    }

    /// Returns the key and the private scalar of the parts that OpenSSL reads
    /// of an elliptic curve private key: the key as `from_pkey_parts` makes
    /// it, and the scalar, which must fit an ECC parameter (else
    /// `InvalidPrivateKeySize`). Where OpenSSL fails to make the curve's group
    /// the result is a `Crypto` error, and otherwise it is
    /// `spec_ecc_from_parts`.
    pub fn from_ec_parts(nid: Option<i32>, point: &[u8], scalar: Vec<u8>) -> (r: Result<
        (Self, Vec<u8>),
        TpmCryptoError,
    >)
        ensures
            spec_ecc_from_parts(nid, point@, scalar@) matches Err(TpmCryptoError::InvalidEccNid(_))
                ==> r_matches_pair(r, spec_ecc_from_parts(nid, point@, scalar@)),
            (r matches Err(e) && e == TpmCryptoError::Crypto) || r_matches_pair(
                r,
                spec_ecc_from_parts(nid, point@, scalar@),
            ),
    {
        let key = Self::from_pkey_parts(nid, point)?;
        if scalar.len() > MAX_ECC_KEY_BYTES {
            return Err(
                TpmCryptoError::InvalidPrivateKeySize { len: scalar.len(), max: MAX_ECC_KEY_BYTES },
            );
        }
        Ok((key, scalar))
    }

    /// Reads a DER-encoded elliptic curve private key: the key and private
    /// scalar that `from_ec_parts` makes of the parts OpenSSL reads. Bytes
    /// from which OpenSSL reads no elliptic curve private key are a `Crypto`
    /// error.
    pub fn from_der(bytes: &[u8]) -> (r: Result<(Self, Vec<u8>), TpmCryptoError>)
        ensures
            match openssl_der_ec_parts(bytes@) {
                None => r matches Err(e) && e == TpmCryptoError::Crypto,
                Some(t) => {
                    &&& spec_ecc_from_parts(t.0, t.1, t.2) matches Err(TpmCryptoError::InvalidEccNid(_))
                        ==> r_matches_pair(r, spec_ecc_from_parts(t.0, t.1, t.2))
                    &&& (r matches Err(e) && e == TpmCryptoError::Crypto) || r_matches_pair(
                        r,
                        spec_ecc_from_parts(t.0, t.1, t.2),
                    )
                },
            },
    {
        let (nid, pub_bytes, private_key) = der_ec_parts(bytes)?;
        Self::from_ec_parts(nid, pub_bytes.as_slice(), private_key)
    }
}

/// The key of the parts that OpenSSL reports of an elliptic curve key: its
/// curve, found by the identifier (none is `InvalidEccNid(0)`, an unknown one
/// `InvalidEccNid`), and its point, read from the uncompressed encoding with
/// coordinates of the curve's size.
pub open spec fn spec_ecc_key_from_parts(nid: Option<i32>, point: Seq<u8>) -> Result<
    EccKeyView,
    TpmCryptoError,
> {
    match nid {
        None => Err(TpmCryptoError::InvalidEccNid(0)),
        Some(n) => match TpmEllipticCurve::spec_from_nid(n) {
            None => Err(TpmCryptoError::InvalidEccNid(n)),
            Some(c) => match spec_make_point(point, c.spec_coord_len(), c) {
                Err(e) => Err(e),
                Ok(p) => Ok(EccKeyView { curve: c, unique: p }),
            },
        },
    }
}

/// The key and private scalar of the parts that OpenSSL reads of an elliptic
/// curve private key: the key as `spec_ecc_key_from_parts` gives it, then a
/// scalar longer than an ECC parameter is `InvalidPrivateKeySize`.
pub open spec fn spec_ecc_from_parts(nid: Option<i32>, point: Seq<u8>, scalar: Seq<u8>) -> Result<
    (EccKeyView, Seq<u8>),
    TpmCryptoError,
> {
    match spec_ecc_key_from_parts(nid, point) {
        Err(e) => Err(e),
        Ok(k) => if scalar.len() > MAX_ECC_KEY_BYTES {
            Err(TpmCryptoError::InvalidPrivateKeySize { len: scalar.len() as usize, max: MAX_ECC_KEY_BYTES })
        } else {
            Ok((k, scalar))
        },
    }
}

/// `r` is the key that `s` gives, or its error.
pub open spec fn r_matches_key(r: Result<TpmEccExternalKey, TpmCryptoError>, s: Result<EccKeyView, TpmCryptoError>) -> bool {
    match s {
        Ok(k) => r matches Ok(v) && v@ == k,
        Err(e) => r matches Err(e2) && e2 == e,
    }
}

/// `r` is the key and scalar that `s` gives, or its error.
pub open spec fn r_matches_pair(
    r: Result<(TpmEccExternalKey, Vec<u8>), TpmCryptoError>,
    s: Result<(EccKeyView, Seq<u8>), TpmCryptoError>,
) -> bool {
    match s {
        Ok((k, sc)) => r matches Ok((v, w)) && v@ == k && w@ == sc,
        Err(e) => r matches Err(e2) && e2 == e,
    }
}

proof fn lemma_curve_of_nid(nid: i32)
    ensures
        TpmEllipticCurve::spec_from_nid(nid) matches Some(c) ==> c.spec_nid() == Some(nid)
            && 0 < c.spec_degree() && c.spec_coord_len() <= MAX_ECC_KEY_BYTES,
{
}

proof fn lemma_ecc_key_from_parts_errors(nid: Option<i32>, point: Seq<u8>)
    ensures
        spec_ecc_key_from_parts(nid, point) matches Err(e) ==> (e is InvalidEccNid || e is InvalidEccPoint
            || e is Unmarshal),
{
}

} // verus!
