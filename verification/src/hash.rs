//! Hash algorithms by name and by algorithm identifier.

use crate::data::alg::TpmAlgId;
use crate::text::{chars_equal_str, str_chars, ParseError};
use vstd::prelude::*;
use vstd::string::StringExecFns;

verus! {

/// Why an algorithm is not usable where it was given.
#[derive(Debug, Clone, Copy, PartialEq, Eq, Structural)]
pub enum TpmCryptoError {
    /// The algorithm is not a hash algorithm.
    InvalidHash,
    /// The curve is not a usable curve.
    InvalidEccCurve(crate::data::curve::TpmEccCurve),
    /// An HMAC key is empty.
    KeyIsEmpty,
    /// The cryptographic library failed to compute a result.
    OperationFailed,
    /// The cryptographic library could not set up a computation.
    OutOfMemory,
    /// An HMAC does not match the expected value.
    PermissionDenied,
    /// The cryptographic library reported an error.
    Crypto,
    /// The public parts of an RSA key are not usable.
    InvalidRsaParameters,
    /// The coordinates of a point do not have the size of the curve.
    InvalidEccPoint { curve: crate::data::curve::TpmEccCurve, x_len: usize, y_len: usize, expected_len: usize },
    /// A field of a public area does not hold what the key needs.
    InvalidPublicArea { object_type: TpmAlgId, field: TpmPublicAreaField },
    /// OpenSSL's identifier of a curve names no usable curve.
    InvalidEccNid(i32),
    /// The degree of a curve does not fit a size.
    InvalidEccGroupDegree(u32),
    /// A value does not fit the TPM structure that holds it.
    Unmarshal(crate::error::TpmError),
    /// A private key is longer than its buffer.
    InvalidPrivateKeySize { len: usize, max: usize },
}

/// A field of a public area.
#[derive(Debug, Clone, Copy, PartialEq, Eq, Structural)]
pub enum TpmPublicAreaField {
    ObjectType,
    Parameters,
    Unique,
}

/// TPM 2.0 hash algorithms.
#[derive(Debug, Clone, Copy, PartialEq, Eq, Structural)]
pub enum TpmHash {
    Sha1,
    Sha256,
    Sha384,
    Sha512,
    Sm3_256,
    Sha3_256,
    Sha3_384,
    Sha3_512,
    Shake128,
    Shake256,
}

impl TpmHash {
    /// The name of the variant, as it is written on the command line.
    pub open spec fn spec_name(self) -> Seq<char> {
        match self {
            TpmHash::Sha1 => "sha1"@,
            TpmHash::Sha256 => "sha256"@,
            TpmHash::Sha384 => "sha384"@,
            TpmHash::Sha512 => "sha512"@,
            TpmHash::Sm3_256 => "sm3-256"@,
            TpmHash::Sha3_256 => "sha3-256"@,
            TpmHash::Sha3_384 => "sha3-384"@,
            TpmHash::Sha3_512 => "sha3-512"@,
            TpmHash::Shake128 => "shake128"@,
            TpmHash::Shake256 => "shake256"@,
        }
    }

    /// Returns the name of the variant.
    pub fn name(self) -> (r: &'static str)
        ensures
            r@ == self.spec_name(),
    {
        match self {
            TpmHash::Sha1 => "sha1",
            TpmHash::Sha256 => "sha256",
            TpmHash::Sha384 => "sha384",
            TpmHash::Sha512 => "sha512",
            TpmHash::Sm3_256 => "sm3-256",
            TpmHash::Sha3_256 => "sha3-256",
            TpmHash::Sha3_384 => "sha3-384",
            TpmHash::Sha3_512 => "sha3-512",
            TpmHash::Shake128 => "shake128",
            TpmHash::Shake256 => "shake256",
        }
    }

    /// Returns the name of the variant, as `Display` writes it.
    pub fn to_string(&self) -> (r: String)
        ensures
            r@ == self.spec_name(),
    {
        String::from_str(self.name())
    }

    /// Parses the name of a variant.
    pub fn parse(s: &str) -> (r: Result<TpmHash, ParseError>)
        ensures
            match r {
                Ok(v) => s@ == v.spec_name(),
                Err(_) => forall|v: TpmHash| s@ != v.spec_name(),
            },
    {
        let chars = str_chars(s);
        let n = chars.len();
        if chars_equal_str(&chars, 0, n, "sha1") {
            assert(chars@.subrange(0, n as int) =~= s@);
            Ok(TpmHash::Sha1)
        } else if chars_equal_str(&chars, 0, n, "sha256") {
            assert(chars@.subrange(0, n as int) =~= s@);
            Ok(TpmHash::Sha256)
        } else if chars_equal_str(&chars, 0, n, "sha384") {
            assert(chars@.subrange(0, n as int) =~= s@);
            Ok(TpmHash::Sha384)
        } else if chars_equal_str(&chars, 0, n, "sha512") {
            assert(chars@.subrange(0, n as int) =~= s@);
            Ok(TpmHash::Sha512)
        } else if chars_equal_str(&chars, 0, n, "sm3-256") {
            assert(chars@.subrange(0, n as int) =~= s@);
            Ok(TpmHash::Sm3_256)
        } else if chars_equal_str(&chars, 0, n, "sha3-256") {
            assert(chars@.subrange(0, n as int) =~= s@);
            Ok(TpmHash::Sha3_256)
        } else if chars_equal_str(&chars, 0, n, "sha3-384") {
            assert(chars@.subrange(0, n as int) =~= s@);
            Ok(TpmHash::Sha3_384)
        } else if chars_equal_str(&chars, 0, n, "sha3-512") {
            assert(chars@.subrange(0, n as int) =~= s@);
            Ok(TpmHash::Sha3_512)
        } else if chars_equal_str(&chars, 0, n, "shake128") {
            assert(chars@.subrange(0, n as int) =~= s@);
            Ok(TpmHash::Shake128)
        } else if chars_equal_str(&chars, 0, n, "shake256") {
            assert(chars@.subrange(0, n as int) =~= s@);
            Ok(TpmHash::Shake256)
        } else {
            assert(chars@.subrange(0, n as int) =~= s@);
            assert forall|v: TpmHash| s@ != v.spec_name() by {
                match v {
                    TpmHash::Sha1 => {},
                    TpmHash::Sha256 => {},
                    TpmHash::Sha384 => {},
                    TpmHash::Sha512 => {},
                    TpmHash::Sm3_256 => {},
                    TpmHash::Sha3_256 => {},
                    TpmHash::Sha3_384 => {},
                    TpmHash::Sha3_512 => {},
                    TpmHash::Shake128 => {},
                    TpmHash::Shake256 => {},
                }
            }
            Err(ParseError::VariantNotFound)
        }
    }
}

/// Different variants have different names.
pub proof fn lemma_tpm_hash_names_distinct(a: TpmHash, b: TpmHash)
    ensures
        a.spec_name() == b.spec_name() ==> a == b,
{
    reveal_strlit("sha1");
    reveal_strlit("sha256");
    reveal_strlit("sha384");
    reveal_strlit("sha512");
    reveal_strlit("sm3-256");
    reveal_strlit("sha3-256");
    reveal_strlit("sha3-384");
    reveal_strlit("sha3-512");
    reveal_strlit("shake128");
    reveal_strlit("shake256");
    assert("sha1"@.len() == 4);
    assert("sha256"@.len() == 6);
    assert("sha384"@.len() == 6);
    assert("sha512"@.len() == 6);
    assert("sm3-256"@.len() == 7);
    assert("sha3-256"@.len() == 8);
    assert("sha3-384"@.len() == 8);
    assert("sha3-512"@.len() == 8);
    assert("shake128"@.len() == 8);
    assert("shake256"@.len() == 8);
    assert("sha256"@[3] != "sha384"@[3]);
    assert("sha256"@[3] != "sha512"@[3]);
    assert("sha384"@[3] != "sha512"@[3]);
    assert("sha3-256"@[5] != "sha3-384"@[5]);
    assert("sha3-256"@[5] != "sha3-512"@[5]);
    assert("sha3-256"@[3] != "shake128"@[3]);
    assert("sha3-256"@[3] != "shake256"@[3]);
    assert("sha3-384"@[5] != "sha3-512"@[5]);
    assert("sha3-384"@[3] != "shake128"@[3]);
    assert("sha3-384"@[3] != "shake256"@[3]);
    assert("sha3-512"@[3] != "shake128"@[3]);
    assert("sha3-512"@[3] != "shake256"@[3]);
    assert("shake128"@[5] != "shake256"@[5]);
    match a {
        TpmHash::Sha1 => assert(b.spec_name() == "sha1"@ ==> b == TpmHash::Sha1),
        TpmHash::Sha256 => assert(b.spec_name() == "sha256"@ ==> b == TpmHash::Sha256),
        TpmHash::Sha384 => assert(b.spec_name() == "sha384"@ ==> b == TpmHash::Sha384),
        TpmHash::Sha512 => assert(b.spec_name() == "sha512"@ ==> b == TpmHash::Sha512),
        TpmHash::Sm3_256 => assert(b.spec_name() == "sm3-256"@ ==> b == TpmHash::Sm3_256),
        TpmHash::Sha3_256 => assert(b.spec_name() == "sha3-256"@ ==> b == TpmHash::Sha3_256),
        TpmHash::Sha3_384 => assert(b.spec_name() == "sha3-384"@ ==> b == TpmHash::Sha3_384),
        TpmHash::Sha3_512 => assert(b.spec_name() == "sha3-512"@ ==> b == TpmHash::Sha3_512),
        TpmHash::Shake128 => assert(b.spec_name() == "shake128"@ ==> b == TpmHash::Shake128),
        TpmHash::Shake256 => assert(b.spec_name() == "shake256"@ ==> b == TpmHash::Shake256),
    }
}

impl core::str::FromStr for TpmHash {
    type Err = ParseError;

    fn from_str(s: &str) -> (r: Result<Self, Self::Err>)
        ensures
            match r {
                Ok(v) => s@ == v.spec_name(),
                Err(_) => forall|v: TpmHash| s@ != v.spec_name(),
            },
    {
        TpmHash::parse(s)
    }
}

impl TpmHash {
    /// The algorithm identifier of the hash.
    pub open spec fn spec_alg_id(self) -> TpmAlgId {
        match self {
            TpmHash::Sha1 => TpmAlgId::Sha1,
            TpmHash::Sha256 => TpmAlgId::Sha256,
            TpmHash::Sha384 => TpmAlgId::Sha384,
            TpmHash::Sha512 => TpmAlgId::Sha512,
            TpmHash::Sm3_256 => TpmAlgId::Sm3_256,
            TpmHash::Sha3_256 => TpmAlgId::Sha3_256,
            TpmHash::Sha3_384 => TpmAlgId::Sha3_384,
            TpmHash::Sha3_512 => TpmAlgId::Sha3_512,
            TpmHash::Shake128 => TpmAlgId::Shake128,
            TpmHash::Shake256 => TpmAlgId::Shake256,
        }
    }

    /// Returns the algorithm identifier of the hash.
    pub fn alg_id(self) -> (r: TpmAlgId)
        ensures
            r == self.spec_alg_id(),
    {
        match self {
            TpmHash::Sha1 => TpmAlgId::Sha1,
            TpmHash::Sha256 => TpmAlgId::Sha256,
            TpmHash::Sha384 => TpmAlgId::Sha384,
            TpmHash::Sha512 => TpmAlgId::Sha512,
            TpmHash::Sm3_256 => TpmAlgId::Sm3_256,
            TpmHash::Sha3_256 => TpmAlgId::Sha3_256,
            TpmHash::Sha3_384 => TpmAlgId::Sha3_384,
            TpmHash::Sha3_512 => TpmAlgId::Sha3_512,
            TpmHash::Shake128 => TpmAlgId::Shake128,
            TpmHash::Shake256 => TpmAlgId::Shake256,
        }
    }

    /// The hash that an algorithm identifier names, if any.
    pub open spec fn spec_from_alg_id(alg: TpmAlgId) -> Option<TpmHash> {
        match alg {
            TpmAlgId::Sha1 => Some(TpmHash::Sha1),
            TpmAlgId::Sha256 => Some(TpmHash::Sha256),
            TpmAlgId::Sha384 => Some(TpmHash::Sha384),
            TpmAlgId::Sha512 => Some(TpmHash::Sha512),
            TpmAlgId::Sm3_256 => Some(TpmHash::Sm3_256),
            TpmAlgId::Sha3_256 => Some(TpmHash::Sha3_256),
            TpmAlgId::Sha3_384 => Some(TpmHash::Sha3_384),
            TpmAlgId::Sha3_512 => Some(TpmHash::Sha3_512),
            TpmAlgId::Shake128 => Some(TpmHash::Shake128),
            TpmAlgId::Shake256 => Some(TpmHash::Shake256),
            _ => None,
        }
    }

    /// Returns the hash that an algorithm identifier names.
    pub fn try_from_alg_id(alg: TpmAlgId) -> (r: Result<TpmHash, TpmCryptoError>)
        ensures
            match TpmHash::spec_from_alg_id(alg) {
                Some(h) => r == Ok::<TpmHash, TpmCryptoError>(h),
                None => r == Err::<TpmHash, TpmCryptoError>(TpmCryptoError::InvalidHash),
            },
            match r {
                Ok(h) => h.spec_alg_id() == alg,
                Err(e) => e == TpmCryptoError::InvalidHash && forall|h: TpmHash| h.spec_alg_id() != alg,
            },
    {
        match alg {
            TpmAlgId::Sha1 => Ok(TpmHash::Sha1),
            TpmAlgId::Sha256 => Ok(TpmHash::Sha256),
            TpmAlgId::Sha384 => Ok(TpmHash::Sha384),
            TpmAlgId::Sha512 => Ok(TpmHash::Sha512),
            TpmAlgId::Sm3_256 => Ok(TpmHash::Sm3_256),
            TpmAlgId::Sha3_256 => Ok(TpmHash::Sha3_256),
            TpmAlgId::Sha3_384 => Ok(TpmHash::Sha3_384),
            TpmAlgId::Sha3_512 => Ok(TpmHash::Sha3_512),
            TpmAlgId::Shake128 => Ok(TpmHash::Shake128),
            TpmAlgId::Shake256 => Ok(TpmHash::Shake256),
            _ => {
                assert forall|h: TpmHash| h.spec_alg_id() != alg by {
                    match h {
                        TpmHash::Sha1 => {},
                        TpmHash::Sha256 => {},
                        TpmHash::Sha384 => {},
                        TpmHash::Sha512 => {},
                        TpmHash::Sm3_256 => {},
                        TpmHash::Sha3_256 => {},
                        TpmHash::Sha3_384 => {},
                        TpmHash::Sha3_512 => {},
                        TpmHash::Shake128 => {},
                        TpmHash::Shake256 => {},
                    }
                }
                Err(TpmCryptoError::InvalidHash)
            },
        }
    }
}

/// Different hashes have different algorithm identifiers, so the hash of an
/// algorithm identifier is the one it came from.
pub proof fn lemma_hash_alg_id_injective(a: TpmHash, b: TpmHash)
    ensures
        a.spec_alg_id() == b.spec_alg_id() ==> a == b,
{
}


/// The names and algorithm identifiers of the hashes: `sha1` is
/// `TPM_ALG_SHA1`, `sha256` is `TPM_ALG_SHA256`, `sha384` is
/// `TPM_ALG_SHA384`, `sha512` is `TPM_ALG_SHA512`, `sm3-256` is
/// `TPM_ALG_SM3_256`, `sha3-256`, `sha3-384` and `sha3-512` are the SHA-3
/// identifiers of those sizes, and `shake128` and `shake256` are
/// `TPM_ALG_SHAKE128` and `TPM_ALG_SHAKE256`, in both directions.
pub proof fn lemma_hash_names_and_ids()
    ensures
        TpmHash::Sha1.spec_name() == "sha1"@,
        TpmHash::Sha1.spec_alg_id() == TpmAlgId::Sha1,
        TpmHash::spec_from_alg_id(TpmAlgId::Sha1) == Some(TpmHash::Sha1),
        TpmHash::Sha256.spec_name() == "sha256"@,
        TpmHash::Sha256.spec_alg_id() == TpmAlgId::Sha256,
        TpmHash::spec_from_alg_id(TpmAlgId::Sha256) == Some(TpmHash::Sha256),
        TpmHash::Sha384.spec_name() == "sha384"@,
        TpmHash::Sha384.spec_alg_id() == TpmAlgId::Sha384,
        TpmHash::spec_from_alg_id(TpmAlgId::Sha384) == Some(TpmHash::Sha384),
        TpmHash::Sha512.spec_name() == "sha512"@,
        TpmHash::Sha512.spec_alg_id() == TpmAlgId::Sha512,
        TpmHash::spec_from_alg_id(TpmAlgId::Sha512) == Some(TpmHash::Sha512),
        TpmHash::Sm3_256.spec_name() == "sm3-256"@,
        TpmHash::Sm3_256.spec_alg_id() == TpmAlgId::Sm3_256,
        TpmHash::spec_from_alg_id(TpmAlgId::Sm3_256) == Some(TpmHash::Sm3_256),
        TpmHash::Sha3_256.spec_name() == "sha3-256"@,
        TpmHash::Sha3_256.spec_alg_id() == TpmAlgId::Sha3_256,
        TpmHash::spec_from_alg_id(TpmAlgId::Sha3_256) == Some(TpmHash::Sha3_256),
        TpmHash::Sha3_384.spec_name() == "sha3-384"@,
        TpmHash::Sha3_384.spec_alg_id() == TpmAlgId::Sha3_384,
        TpmHash::spec_from_alg_id(TpmAlgId::Sha3_384) == Some(TpmHash::Sha3_384),
        TpmHash::Sha3_512.spec_name() == "sha3-512"@,
        TpmHash::Sha3_512.spec_alg_id() == TpmAlgId::Sha3_512,
        TpmHash::spec_from_alg_id(TpmAlgId::Sha3_512) == Some(TpmHash::Sha3_512),
        TpmHash::Shake128.spec_name() == "shake128"@,
        TpmHash::Shake128.spec_alg_id() == TpmAlgId::Shake128,
        TpmHash::spec_from_alg_id(TpmAlgId::Shake128) == Some(TpmHash::Shake128),
        TpmHash::Shake256.spec_name() == "shake256"@,
        TpmHash::Shake256.spec_alg_id() == TpmAlgId::Shake256,
        TpmHash::spec_from_alg_id(TpmAlgId::Shake256) == Some(TpmHash::Shake256),
{
}

} // verus!
