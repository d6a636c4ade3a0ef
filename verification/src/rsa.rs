//! RSA keys from outside the TPM: the public parts that a TPM public area
//! holds of them.

use crate::constant::MAX_RSA_KEY_BYTES;
use crate::data::alg::TpmAlgId;
use crate::data::public::{
    PublicIdView, PublicView, TpmsRsaParms, TpmtPublic, TpmuPublicId, TpmuPublicParms,
};
use crate::data::schemes::{TpmsSchemeHash, TpmtRsaScheme, TpmuAsymScheme};
use crate::template::{PublicTemplateView, TpmPublicTemplate};
use crate::hash::TpmCryptoError;
use vstd::prelude::*;
use vstd::slice::slice_to_vec;

verus! {

/// The public parts of an OpenSSL RSA key, after `PKey::rsa`: the modulus by
/// `BigNumRef::to_vec` of `Rsa::n`, then of the public exponent `Rsa::e` its
/// sign by `is_negative`, its number of significant bits by `num_bits` and its
/// bytes by `to_vec`, and the modulus size in bytes by `Rsa::size`. A key that
/// is no RSA key is `InvalidRsaParameters`. What comes back depends on the
/// key, of which nothing is stated.
#[verifier::external_body]
fn pkey_rsa_parts(pkey: &openssl::pkey::PKey<openssl::pkey::Private>) -> (r: Result<
    (Vec<u8>, bool, i32, Vec<u8>, u32),
    TpmCryptoError,
>) {
    let rsa = pkey.rsa().map_err(|_| TpmCryptoError::InvalidRsaParameters)?;
    let e = rsa.e();
    Ok((rsa.n().to_vec(), e.is_negative(), e.num_bits(), e.to_vec(), rsa.size()))
}

/// The public parts and first prime factor of the RSA private key that the
/// DER bytes `der` hold, as OpenSSL reads them: the modulus, the sign, number
/// of significant bits and bytes of the public exponent, the modulus size in
/// bytes, and the first prime factor if the key has one. `None` when OpenSSL
/// reads no private key from the bytes, `Some(None)` when the key it reads is
/// no RSA key.
pub uninterp spec fn openssl_der_rsa_parts(der: Seq<u8>) -> Option<Option<(Seq<u8>, bool, i32, Seq<u8>, u32, Option<Seq<u8>>)>>;

/// Reads an RSA private key from DER with `PKey::private_key_from_der` and
/// `PKey::rsa`, and returns its parts: `BigNumRef::to_vec` of `Rsa::n`; of
/// `Rsa::e` its sign by `is_negative`, its number of significant bits by
/// `num_bits` and its bytes by `to_vec`; `Rsa::size`; and `to_vec` of
/// `Rsa::p`, if any. Bytes OpenSSL cannot read are `OperationFailed`, a key
/// that is no RSA key `InvalidRsaParameters`. What comes back is a function
/// of the DER bytes, named `openssl_der_rsa_parts`.
#[verifier::external_body]
fn der_rsa_parts(der: &[u8]) -> (r: Result<
    (Vec<u8>, bool, i32, Vec<u8>, u32, Option<Vec<u8>>),
    TpmCryptoError,
>)
    ensures
        match openssl_der_rsa_parts(der@) {
            None => r matches Err(e) && e == TpmCryptoError::OperationFailed,
            Some(None) => r matches Err(e) && e == TpmCryptoError::InvalidRsaParameters,
            Some(Some(t)) => r matches Ok(u) && t == (
                u.0@,
                u.1,
                u.2,
                u.3@,
                u.4,
                match u.5 {
                    Some(p) => Some(p@),
                    None => None::<Seq<u8>>,
                },
            ),
        },
{
    let pkey = openssl::pkey::PKey::private_key_from_der(der).map_err(
        |_| TpmCryptoError::OperationFailed,
    )?;
    let rsa = pkey.rsa().map_err(|_| TpmCryptoError::InvalidRsaParameters)?;
    let e = rsa.e();
    let p = rsa.p().map(|p| p.to_vec());
    Ok((rsa.n().to_vec(), e.is_negative(), e.num_bits(), e.to_vec(), rsa.size(), p))
}

/// The key and sensitive part that the DER bytes `der` give: unreadable bytes
/// are `OperationFailed` and a key that is no RSA key `InvalidRsaParameters`;
/// otherwise the key is the one `spec_rsa_key_from_parts` builds (or its
/// error), and the sensitive part is the first prime factor, whose absence is
/// `OperationFailed`.
pub open spec fn spec_rsa_from_der(der: Seq<u8>) -> Result<(RsaKeyView, Seq<u8>), TpmCryptoError> {
    match openssl_der_rsa_parts(der) {
        None => Err(TpmCryptoError::OperationFailed),
        Some(None) => Err(TpmCryptoError::InvalidRsaParameters),
        Some(Some(t)) => match spec_rsa_key_from_parts(t.0, t.1, t.2, t.3, t.4) {
            Err(e) => Err(e),
            Ok(k) => match t.5 {
                None => Err(TpmCryptoError::OperationFailed),
                Some(p) => Ok((k, p)),
            },
        },
    }
}

/// The public parts of an RSA key, as plain values.
pub struct RsaKeyView {
    pub public_key: Seq<u8>,
    pub exponent: u32,
    pub key_bits: u16,
}

/// The public parts of an RSA key: its modulus, its exponent (0 for the
/// default 65537) and its size in bits.
#[derive(Debug)]
pub struct TpmRsaExternalKey {
    public_key: Vec<u8>,
    exponent: u32,
    key_bits: u16,
}

impl View for TpmRsaExternalKey {
    type V = RsaKeyView;

    closed spec fn view(&self) -> RsaKeyView {
        RsaKeyView { public_key: self.public_key@, exponent: self.exponent, key_bits: self.key_bits }
    }
}

/// The exponent as a public area holds it: 0 for the default 65537.
pub open spec fn spec_tpm_exponent(e: u32) -> u32 {
    if e == 65537 {
        0
    } else {
        e
    }
}

/// The unsigned number that big-endian bytes encode.
pub open spec fn spec_be_uint(s: Seq<u8>) -> nat
    decreases s.len(),
{
    if s.len() == 0 {
        0
    } else {
        spec_be_uint(s.drop_last()) * 256 + s.last() as nat
    }
}

/// Big-endian bytes encode a number below `256` to the power of their count.
proof fn lemma_be_uint_bound(s: Seq<u8>)
    requires
        s.len() <= 4,
    ensures
        spec_be_uint(s) < 0x1_0000_0000,
        s.len() <= 3 ==> spec_be_uint(s) < 0x100_0000,
        s.len() <= 2 ==> spec_be_uint(s) < 0x1_0000,
        s.len() <= 1 ==> spec_be_uint(s) < 0x100,
    decreases s.len(),
{
    if s.len() > 0 {
        lemma_be_uint_bound(s.drop_last());
    }
}

/// The key of the public parts that OpenSSL reports of an RSA key: the
/// modulus must fit an RSA key buffer, the exponent be non-negative and of at
/// most 32 bits, and the size in bits fit a `u16`; anything else is
/// `InvalidRsaParameters`.
pub open spec fn spec_rsa_key_from_parts(
    modulus: Seq<u8>,
    e_negative: bool,
    e_bits: i32,
    e_bytes: Seq<u8>,
    size: u32,
) -> Result<RsaKeyView, TpmCryptoError> {
    if modulus.len() > MAX_RSA_KEY_BYTES || e_negative || e_bits > 32 || e_bytes.len() > 4 || size
        as int * 8 > u16::MAX {
        Err(TpmCryptoError::InvalidRsaParameters)
    } else {
        Ok(
            RsaKeyView {
                public_key: modulus,
                exponent: spec_tpm_exponent(spec_be_uint(e_bytes) as u32),
                key_bits: (size * 8) as u16,
            },
        )
    }
}

/// The key of an RSA public area: the object must be an RSA key with RSA
/// parameters and an RSA modulus, else `InvalidRsaParameters`.
pub open spec fn spec_rsa_key_from_public(p: PublicView) -> Result<RsaKeyView, TpmCryptoError> {
    if p.object_type != TpmAlgId::Rsa {
        Err(TpmCryptoError::InvalidRsaParameters)
    } else {
        match (p.parameters, p.unique) {
            (TpmuPublicParms::Rsa(params), PublicIdView::Rsa(n)) => Ok(
                RsaKeyView {
                    public_key: n,
                    exponent: spec_tpm_exponent(params.exponent),
                    key_bits: params.key_bits,
                },
            ),
            _ => Err(TpmCryptoError::InvalidRsaParameters),
        }
    }
}

impl Clone for TpmRsaExternalKey {
    fn clone(&self) -> (r: Self)
        ensures
            r@ == self@,
    {
        proof {
            use_type_invariant(self);
        }
        TpmRsaExternalKey {
            public_key: slice_to_vec(self.public_key.as_slice()),
            exponent: self.exponent,
            key_bits: self.key_bits,
        }
    }
}

/// The public area of an RSA key made from a template: an OAEP key of the
/// template's name algorithm, attributes and symmetric algorithm, with no
/// policy.
pub open spec fn spec_rsa_public_of(k: RsaKeyView, t: PublicTemplateView) -> PublicView {
    PublicView {
        object_type: TpmAlgId::Rsa,
        name_alg: t.name_alg,
        object_attributes: t.object_attributes,
        auth_policy: Seq::empty(),
        parameters: TpmuPublicParms::Rsa(
            TpmsRsaParms {
                symmetric: t.symmetric,
                scheme: TpmtRsaScheme {
                    scheme: TpmAlgId::Oaep,
                    details: TpmuAsymScheme::Hash(TpmsSchemeHash { hash_alg: t.name_alg }),
                },
                key_bits: k.key_bits,
                exponent: k.exponent,
            },
        ),
        unique: PublicIdView::Rsa(k.public_key),
    }
}

/// The public area made of an RSA key reads back as that key, whatever the
/// template; an exponent of 65537 reads back as 0, so such a key is left out.
pub proof fn lemma_rsa_public_roundtrip(k: RsaKeyView, t: PublicTemplateView)
    requires
        k.exponent != 65537,
    ensures
        spec_rsa_key_from_public(spec_rsa_public_of(k, t)) == Ok::<RsaKeyView, TpmCryptoError>(k),
{
}

impl TpmRsaExternalKey {
    /// The modulus fits an RSA key buffer.
    #[verifier::type_invariant]
    spec fn key_inv(self) -> bool {
        self.public_key@.len() <= MAX_RSA_KEY_BYTES
    }

    /// Creates the public parts of an RSA key.
    pub fn new(public_key: Vec<u8>, exponent: u32, key_bits: u16) -> (r: Self)
        requires
            public_key@.len() <= MAX_RSA_KEY_BYTES,
        ensures
            r@ == (RsaKeyView { public_key: public_key@, exponent, key_bits }),
    {
        TpmRsaExternalKey { public_key, exponent, key_bits }
    }

    /// Returns the public key modulus.
    pub fn public_key(&self) -> (r: &[u8])
        ensures
            r@ == self@.public_key,
            r@.len() <= MAX_RSA_KEY_BYTES,
    {
        proof {
            use_type_invariant(self);
        }
        self.public_key.as_slice()
    }

    /// Returns the public exponent.
    pub fn exponent(&self) -> (r: u32)
        ensures
            r == self@.exponent,
    {
        self.exponent
    }

    /// Returns the key size in bits.
    pub fn key_bits(&self) -> (r: u16)
        ensures
            r == self@.key_bits,
    {
        self.key_bits
    }

    /// Returns the public area of the key: an OAEP key of the template's name
    /// algorithm, attributes and symmetric algorithm, with no policy.
    pub fn to_public(&self, template: &TpmPublicTemplate) -> (r: TpmtPublic)
        ensures
            r@ == spec_rsa_public_of(self@, template@),
            r@.fits(),
    {
        proof {
            use_type_invariant(self);
        }
        let name_alg = template.name_alg();
        TpmtPublic {
            object_type: TpmAlgId::Rsa,
            name_alg,
            object_attributes: template.object_attributes(),
            auth_policy: Vec::new(),
            parameters: TpmuPublicParms::Rsa(
                TpmsRsaParms {
                    symmetric: template.symmetric(),
                    scheme: TpmtRsaScheme {
                        scheme: TpmAlgId::Oaep,
                        details: TpmuAsymScheme::Hash(TpmsSchemeHash { hash_alg: name_alg }),
                    },
                    key_bits: self.key_bits,
                    exponent: self.exponent,
                },
            ),
            unique: TpmuPublicId::Rsa(slice_to_vec(self.public_key.as_slice())),
        }
    }

    /// Returns the key of an RSA public area.
    pub fn try_from_public(public: &TpmtPublic) -> (r: Result<Self, TpmCryptoError>)
        requires
            public@.fits(),
        ensures
            match spec_rsa_key_from_public(public@) {
                Ok(v) => r matches Ok(k) && k@ == v,
                Err(e) => r == Err::<Self, TpmCryptoError>(e),
            },
    {
        if public.object_type != TpmAlgId::Rsa {
            return Err(TpmCryptoError::InvalidRsaParameters);
        }
        let params = match &public.parameters {
            TpmuPublicParms::Rsa(params) => params,
            _ => {
                return Err(TpmCryptoError::InvalidRsaParameters);
            },
        };
        let n = match &public.unique {
            TpmuPublicId::Rsa(n) => n,
            _ => {
                return Err(TpmCryptoError::InvalidRsaParameters);
            },
        };
        let e = if params.exponent == 65537 {
            0
        } else {
            params.exponent
        };
        Ok(
            TpmRsaExternalKey {
                public_key: slice_to_vec(n.as_slice()),
                exponent: e,
                key_bits: params.key_bits,
            },
        )
    }

    /// Returns the key of the public parts that OpenSSL reports of an RSA
    /// key: its modulus, the sign, number of bits and bytes of its exponent,
    /// and its size in bytes.
    pub fn from_parts(
        modulus: &[u8],
        e_negative: bool,
        e_bits: i32,
        e_bytes: &[u8],
        size: u32,
    ) -> (r: Result<Self, TpmCryptoError>)
        ensures
            match spec_rsa_key_from_parts(modulus@, e_negative, e_bits, e_bytes@, size) {
                Ok(v) => r matches Ok(k) && k@ == v,
                Err(e) => r == Err::<Self, TpmCryptoError>(e),
            },
    {
        if modulus.len() > MAX_RSA_KEY_BYTES {
            return Err(TpmCryptoError::InvalidRsaParameters);
        }
        if e_negative || e_bits > 32 || e_bytes.len() > 4 {
            return Err(TpmCryptoError::InvalidRsaParameters);
        }
        let mut e: u32 = 0;
        let mut i: usize = 0;
        while i < e_bytes.len()
            invariant
                i <= e_bytes@.len() <= 4,
                e == spec_be_uint(e_bytes@.take(i as int)),
            decreases e_bytes@.len() - i,
        {
            proof {
                lemma_be_uint_bound(e_bytes@.take(i as int));
                assert(e_bytes@.take(i + 1).drop_last() =~= e_bytes@.take(i as int));
            }
            e = e * 256 + e_bytes[i] as u32;
            i = i + 1;
        }
        assert(e_bytes@.take(i as int) =~= e_bytes@);
        let e = if e == 65537 {
            0
        } else {
            e
        };
        if size > 8191 {
            return Err(TpmCryptoError::InvalidRsaParameters);
        }
        let key_bits: u16 = (size * 8) as u16;
        Ok(TpmRsaExternalKey { public_key: slice_to_vec(modulus), exponent: e, key_bits })
    }

    /// Returns the key of an RSA key held by OpenSSL.
    ///
    /// A key that is no RSA key, or whose public parts do not fit, is
    /// `InvalidRsaParameters`; the key otherwise is the one `from_parts`
    /// builds from what OpenSSL reports.
    pub fn try_from_pkey(pkey: &openssl::pkey::PKey<openssl::pkey::Private>) -> (r: Result<
        Self,
        TpmCryptoError,
    >)
        ensures
            r matches Err(e) ==> e == TpmCryptoError::InvalidRsaParameters,
            r matches Ok(k) ==> exists|
                modulus: Seq<u8>,
                e_negative: bool,
                e_bits: i32,
                e_bytes: Seq<u8>,
                size: u32,
            | #[trigger]
                spec_rsa_key_from_parts(modulus, e_negative, e_bits, e_bytes, size) == Ok::<
                    RsaKeyView,
                    TpmCryptoError,
                >(k@),
    {
        let (n, e_negative, e_bits, e_bytes, size) = match pkey_rsa_parts(pkey) {
            Ok(t) => t,
            Err(e) => {
                return Err(TpmCryptoError::InvalidRsaParameters);
            },
        };
        let r = Self::from_parts(n.as_slice(), e_negative, e_bits, e_bytes.as_slice(), size);
        assert(r matches Ok(k) ==> spec_rsa_key_from_parts(n@, e_negative, e_bits, e_bytes@, size)
            == Ok::<RsaKeyView, TpmCryptoError>(k@));
        r
    }

    /// Reads a DER-encoded RSA private key: its public parts, as
    /// `from_parts` builds them from what OpenSSL reads, and its first prime
    /// factor as the sensitive part; the result is `spec_rsa_from_der`.
    pub fn from_der(bytes: &[u8]) -> (r: Result<(Self, Vec<u8>), TpmCryptoError>)
        ensures
            match spec_rsa_from_der(bytes@) {
                Ok((k, s)) => r matches Ok((kk, ss)) && kk@ == k && ss@ == s,
                Err(e) => r matches Err(e2) && e2 == e,
            },
    {
        let (n, e_negative, e_bits, e_bytes, size, p) = der_rsa_parts(bytes)?;
        let public_key = Self::from_parts(n.as_slice(), e_negative, e_bits, e_bytes.as_slice(), size)?;
        let sensitive = match p {
            Some(p) => p,
            None => {
                return Err(TpmCryptoError::OperationFailed);
            },
        };
        Ok((public_key, sensitive))
    }
}

} // verus!
