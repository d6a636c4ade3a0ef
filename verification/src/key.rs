//! Key algorithms as the command line writes them: `rsa-<bits>:<hash>`,
//! `ecc-<curve>:<hash>` and `keyedhash:<hash>`, and the name of the
//! algorithm of an object's public area.

use crate::data::alg::TpmAlgId;
use crate::data::attr::TpmaObject;
use crate::data::curve::TpmEccCurve;
use crate::constant::{MAX_ECC_KEY_BYTES, MAX_RSA_KEY_BYTES};
use crate::data::public::{
    EccPointView, PublicIdView, PublicView, TpmsEccParms, TpmsEccPoint, TpmsRsaParms, TpmtPublic,
    TpmuPublicId, TpmuPublicParms,
};
use crate::data::schemes::{
    TpmsSchemeHash, TpmtEccScheme, TpmtKdfScheme, TpmtRsaScheme, TpmuAsymScheme,
};
use crate::data::sym::TpmtSymDef;
use crate::hash::TpmCryptoError;
use crate::hexstr::{hex_encode, spec_hex_encode};
use crate::ecc::{lemma_tpm2sh_ecc_curve_names_distinct, Tpm2shEccCurve};
use crate::number::{from_str_radix, lemma_decimal_reads_back, spec_from_str_radix};
use crate::text::{append_str, chars_equal_str, decimal_string, spec_decimal, str_chars};
use vstd::prelude::*;
use vstd::slice::{slice_subrange, slice_to_vec};
use vstd::string::{StrSliceExecFns, StringExecFns};

verus! {

/// Errors of key handling.
#[derive(Debug, Clone, PartialEq, Eq)]
pub enum KeyError {
    CapacityExceeded,
    InvalidAlgorithm(String),
    InvalidAlgorithmFormat(String),
    InvalidEccCurve(String),
    InvalidEccPoint(String),
    InvalidFormat,
    InvalidRsaExponent,
    InvalidRsaKeyBits(String),
    InvalidRsaModulus(String),
    InvalidOid,
    InvalidParent(u32),
    UnsupportedFileFormat,
    UnsupportedKeyAlgorithm(Tpm2shAlgId),
    UnsupportedNameAlgorithm(Tpm2shAlgId),
    UnsupportedOid(String),
    UnsupportedPemTag(String),
    ValueConversionFailed(String),
    Crypto(TpmCryptoError),
}

/// The value of a key error: its texts as characters.
pub enum KeyErrorView {
    CapacityExceeded,
    InvalidAlgorithm(Seq<char>),
    InvalidAlgorithmFormat(Seq<char>),
    InvalidEccCurve(Seq<char>),
    InvalidEccPoint(Seq<char>),
    InvalidFormat,
    InvalidRsaExponent,
    InvalidRsaKeyBits(Seq<char>),
    InvalidRsaModulus(Seq<char>),
    InvalidOid,
    InvalidParent(u32),
    UnsupportedFileFormat,
    UnsupportedKeyAlgorithm(Tpm2shAlgId),
    UnsupportedNameAlgorithm(Tpm2shAlgId),
    UnsupportedOid(Seq<char>),
    UnsupportedPemTag(Seq<char>),
    ValueConversionFailed(Seq<char>),
    Crypto(TpmCryptoError),
}

impl View for KeyError {
    type V = KeyErrorView;

    open spec fn view(&self) -> KeyErrorView {
        match self {
            KeyError::CapacityExceeded => KeyErrorView::CapacityExceeded,
            KeyError::InvalidAlgorithm(s) => KeyErrorView::InvalidAlgorithm(s@),
            KeyError::InvalidAlgorithmFormat(s) => KeyErrorView::InvalidAlgorithmFormat(s@),
            KeyError::InvalidEccCurve(s) => KeyErrorView::InvalidEccCurve(s@),
            KeyError::InvalidEccPoint(s) => KeyErrorView::InvalidEccPoint(s@),
            KeyError::InvalidFormat => KeyErrorView::InvalidFormat,
            KeyError::InvalidRsaExponent => KeyErrorView::InvalidRsaExponent,
            KeyError::InvalidRsaKeyBits(s) => KeyErrorView::InvalidRsaKeyBits(s@),
            KeyError::InvalidRsaModulus(s) => KeyErrorView::InvalidRsaModulus(s@),
            KeyError::InvalidOid => KeyErrorView::InvalidOid,
            KeyError::InvalidParent(h) => KeyErrorView::InvalidParent(*h),
            KeyError::UnsupportedFileFormat => KeyErrorView::UnsupportedFileFormat,
            KeyError::UnsupportedKeyAlgorithm(a) => KeyErrorView::UnsupportedKeyAlgorithm(*a),
            KeyError::UnsupportedNameAlgorithm(a) => KeyErrorView::UnsupportedNameAlgorithm(*a),
            KeyError::UnsupportedOid(s) => KeyErrorView::UnsupportedOid(s@),
            KeyError::UnsupportedPemTag(s) => KeyErrorView::UnsupportedPemTag(s@),
            KeyError::ValueConversionFailed(s) => KeyErrorView::ValueConversionFailed(s@),
            KeyError::Crypto(e) => KeyErrorView::Crypto(*e),
        }
    }
}

/// An algorithm identifier with the names that the command line uses.
#[derive(Debug, Clone, Copy, PartialEq, Eq, Structural)]
pub struct Tpm2shAlgId(pub TpmAlgId);

/// The algorithm that a command-line name stands for, if any.
pub open spec fn spec_alg_by_name(s: Seq<char>) -> Option<TpmAlgId> {
    if s == "rsa"@ {
        Some(TpmAlgId::Rsa)
    } else if s == "sha1"@ {
        Some(TpmAlgId::Sha1)
    } else if s == "hmac"@ {
        Some(TpmAlgId::Hmac)
    } else if s == "aes"@ {
        Some(TpmAlgId::Aes)
    } else if s == "keyedhash"@ {
        Some(TpmAlgId::KeyedHash)
    } else if s == "xor"@ {
        Some(TpmAlgId::Xor)
    } else if s == "sha256"@ {
        Some(TpmAlgId::Sha256)
    } else if s == "sha384"@ {
        Some(TpmAlgId::Sha384)
    } else if s == "sha512"@ {
        Some(TpmAlgId::Sha512)
    } else if s == "null"@ {
        Some(TpmAlgId::Null)
    } else if s == "sm3_256"@ {
        Some(TpmAlgId::Sm3_256)
    } else if s == "sm4"@ {
        Some(TpmAlgId::Sm4)
    } else if s == "ecc"@ {
        Some(TpmAlgId::Ecc)
    } else {
        None
    }
}

impl Tpm2shAlgId {
    /// The name that `Display` writes: that of the command line, or
    /// `unknown` for an algorithm that has none.
    pub open spec fn spec_name(self) -> Seq<char> {
        match self.0 {
            TpmAlgId::Sha1 => "sha1"@,
            TpmAlgId::Sha256 => "sha256"@,
            TpmAlgId::Sha384 => "sha384"@,
            TpmAlgId::Sha512 => "sha512"@,
            TpmAlgId::Rsa => "rsa"@,
            TpmAlgId::Hmac => "hmac"@,
            TpmAlgId::Aes => "aes"@,
            TpmAlgId::KeyedHash => "keyedhash"@,
            TpmAlgId::Xor => "xor"@,
            TpmAlgId::Null => "null"@,
            TpmAlgId::Sm3_256 => "sm3_256"@,
            TpmAlgId::Sm4 => "sm4"@,
            TpmAlgId::Ecc => "ecc"@,
            _ => "unknown"@,
        }
    }

    /// The algorithm has a command-line name.
    pub open spec fn is_named(self) -> bool {
        match self.0 {
            TpmAlgId::Sha1 | TpmAlgId::Sha256 | TpmAlgId::Sha384 | TpmAlgId::Sha512 | TpmAlgId::Rsa
            | TpmAlgId::Hmac | TpmAlgId::Aes | TpmAlgId::KeyedHash | TpmAlgId::Xor | TpmAlgId::Null
            | TpmAlgId::Sm3_256 | TpmAlgId::Sm4 | TpmAlgId::Ecc => true,
            _ => false,
        }
    }

    /// Returns the name that `Display` writes.
    pub fn name(self) -> (r: &'static str)
        ensures
            r@ == self.spec_name(),
    {
        match self.0 {
            TpmAlgId::Sha1 => "sha1",
            TpmAlgId::Sha256 => "sha256",
            TpmAlgId::Sha384 => "sha384",
            TpmAlgId::Sha512 => "sha512",
            TpmAlgId::Rsa => "rsa",
            TpmAlgId::Hmac => "hmac",
            TpmAlgId::Aes => "aes",
            TpmAlgId::KeyedHash => "keyedhash",
            TpmAlgId::Xor => "xor",
            TpmAlgId::Null => "null",
            TpmAlgId::Sm3_256 => "sm3_256",
            TpmAlgId::Sm4 => "sm4",
            TpmAlgId::Ecc => "ecc",
            _ => "unknown",
        }
    }

    /// Returns the name, as `Display` writes it.
    pub fn to_string(&self) -> (r: String)
        ensures
            r@ == self.spec_name(),
    {
        String::from_str(self.name())
    }

    /// Reads a command-line algorithm name; any other text is an
    /// `InvalidAlgorithm` error that carries it.
    pub fn try_from_str(s: &str) -> (r: Result<Tpm2shAlgId, KeyError>)
        ensures
            match spec_alg_by_name(s@) {
                Some(a) => r == Ok::<Tpm2shAlgId, KeyError>(Tpm2shAlgId(a)),
                None => r matches Err(e) && e@ == KeyErrorView::InvalidAlgorithm(s@),
            },
    {
        let chars = str_chars(s);
        let n = chars.len();
        proof {
            assert(chars@.subrange(0, n as int) =~= s@);
        }
        let alg = if chars_equal_str(&chars, 0, n, "rsa") {
            TpmAlgId::Rsa
        } else if chars_equal_str(&chars, 0, n, "sha1") {
            TpmAlgId::Sha1
        } else if chars_equal_str(&chars, 0, n, "hmac") {
            TpmAlgId::Hmac
        } else if chars_equal_str(&chars, 0, n, "aes") {
            TpmAlgId::Aes
        } else if chars_equal_str(&chars, 0, n, "keyedhash") {
            TpmAlgId::KeyedHash
        } else if chars_equal_str(&chars, 0, n, "xor") {
            TpmAlgId::Xor
        } else if chars_equal_str(&chars, 0, n, "sha256") {
            TpmAlgId::Sha256
        } else if chars_equal_str(&chars, 0, n, "sha384") {
            TpmAlgId::Sha384
        } else if chars_equal_str(&chars, 0, n, "sha512") {
            TpmAlgId::Sha512
        } else if chars_equal_str(&chars, 0, n, "null") {
            TpmAlgId::Null
        } else if chars_equal_str(&chars, 0, n, "sm3_256") {
            TpmAlgId::Sm3_256
        } else if chars_equal_str(&chars, 0, n, "sm4") {
            TpmAlgId::Sm4
        } else if chars_equal_str(&chars, 0, n, "ecc") {
            TpmAlgId::Ecc
        } else {
            return Err(KeyError::InvalidAlgorithm(String::from_str(s)));
        };
        Ok(Tpm2shAlgId(alg))
    }
}

/// Different named algorithms have different names.
pub proof fn lemma_alg_names_distinct(a: Tpm2shAlgId, b: Tpm2shAlgId)
    requires
        a.is_named(),
        b.is_named(),
    ensures
        a.spec_name() == b.spec_name() ==> a == b,
{
    reveal_strlit("rsa");
    reveal_strlit("sha1");
    reveal_strlit("hmac");
    reveal_strlit("aes");
    reveal_strlit("keyedhash");
    reveal_strlit("xor");
    reveal_strlit("sha256");
    reveal_strlit("sha384");
    reveal_strlit("sha512");
    reveal_strlit("null");
    reveal_strlit("sm3_256");
    reveal_strlit("sm4");
    reveal_strlit("ecc");
    assert("rsa"@.len() == 3);
    assert("sha1"@.len() == 4);
    assert("hmac"@.len() == 4);
    assert("aes"@.len() == 3);
    assert("keyedhash"@.len() == 9);
    assert("xor"@.len() == 3);
    assert("sha256"@.len() == 6);
    assert("sha384"@.len() == 6);
    assert("sha512"@.len() == 6);
    assert("null"@.len() == 4);
    assert("sm3_256"@.len() == 7);
    assert("sm4"@.len() == 3);
    assert("ecc"@.len() == 3);
    assert("rsa"@[0] != "aes"@[0]);
    assert("rsa"@[0] != "xor"@[0]);
    assert("rsa"@[0] != "sm4"@[0]);
    assert("rsa"@[0] != "ecc"@[0]);
    assert("sha1"@[0] != "hmac"@[0]);
    assert("sha1"@[0] != "null"@[0]);
    assert("hmac"@[0] != "null"@[0]);
    assert("aes"@[0] != "xor"@[0]);
    assert("aes"@[0] != "sm4"@[0]);
    assert("aes"@[0] != "ecc"@[0]);
    assert("xor"@[0] != "sm4"@[0]);
    assert("xor"@[0] != "ecc"@[0]);
    assert("sha256"@[3] != "sha384"@[3]);
    assert("sha256"@[3] != "sha512"@[3]);
    assert("sha384"@[3] != "sha512"@[3]);
    assert("sm4"@[0] != "ecc"@[0]);
    match a.0 {
        TpmAlgId::Rsa => assert(b.spec_name() == "rsa"@ ==> b == a),
        TpmAlgId::Sha1 => assert(b.spec_name() == "sha1"@ ==> b == a),
        TpmAlgId::Hmac => assert(b.spec_name() == "hmac"@ ==> b == a),
        TpmAlgId::Aes => assert(b.spec_name() == "aes"@ ==> b == a),
        TpmAlgId::KeyedHash => assert(b.spec_name() == "keyedhash"@ ==> b == a),
        TpmAlgId::Xor => assert(b.spec_name() == "xor"@ ==> b == a),
        TpmAlgId::Sha256 => assert(b.spec_name() == "sha256"@ ==> b == a),
        TpmAlgId::Sha384 => assert(b.spec_name() == "sha384"@ ==> b == a),
        TpmAlgId::Sha512 => assert(b.spec_name() == "sha512"@ ==> b == a),
        TpmAlgId::Null => assert(b.spec_name() == "null"@ ==> b == a),
        TpmAlgId::Sm3_256 => assert(b.spec_name() == "sm3_256"@ ==> b == a),
        TpmAlgId::Sm4 => assert(b.spec_name() == "sm4"@ ==> b == a),
        TpmAlgId::Ecc => assert(b.spec_name() == "ecc"@ ==> b == a),
        _ => {},
    }
}

/// Every named algorithm's name reads back as the algorithm.
pub proof fn lemma_alg_name_roundtrip(a: Tpm2shAlgId)
    requires
        a.is_named(),
    ensures
        spec_alg_by_name(a.spec_name()) == Some(a.0),
{
    lemma_alg_names_distinct(a, Tpm2shAlgId(TpmAlgId::Rsa));
    lemma_alg_names_distinct(a, Tpm2shAlgId(TpmAlgId::Sha1));
    lemma_alg_names_distinct(a, Tpm2shAlgId(TpmAlgId::Hmac));
    lemma_alg_names_distinct(a, Tpm2shAlgId(TpmAlgId::Aes));
    lemma_alg_names_distinct(a, Tpm2shAlgId(TpmAlgId::KeyedHash));
    lemma_alg_names_distinct(a, Tpm2shAlgId(TpmAlgId::Xor));
    lemma_alg_names_distinct(a, Tpm2shAlgId(TpmAlgId::Sha256));
    lemma_alg_names_distinct(a, Tpm2shAlgId(TpmAlgId::Sha384));
    lemma_alg_names_distinct(a, Tpm2shAlgId(TpmAlgId::Sha512));
    lemma_alg_names_distinct(a, Tpm2shAlgId(TpmAlgId::Null));
    lemma_alg_names_distinct(a, Tpm2shAlgId(TpmAlgId::Sm3_256));
    lemma_alg_names_distinct(a, Tpm2shAlgId(TpmAlgId::Sm4));
    lemma_alg_names_distinct(a, Tpm2shAlgId(TpmAlgId::Ecc));
}

/// The command-line names of the algorithms: `rsa`, `sha1`, `hmac`, `aes`,
/// `keyedhash`, `xor`, `sha256`, `sha384`, `sha512`, `null`, `sm3_256`,
/// `sm4` and `ecc` each name the algorithm of that name, in both
/// directions.
pub proof fn lemma_alg_names()
    ensures
        Tpm2shAlgId(TpmAlgId::Rsa).spec_name() == "rsa"@,
        spec_alg_by_name("rsa"@) == Some(TpmAlgId::Rsa),
        Tpm2shAlgId(TpmAlgId::Sha1).spec_name() == "sha1"@,
        spec_alg_by_name("sha1"@) == Some(TpmAlgId::Sha1),
        Tpm2shAlgId(TpmAlgId::Hmac).spec_name() == "hmac"@,
        spec_alg_by_name("hmac"@) == Some(TpmAlgId::Hmac),
        Tpm2shAlgId(TpmAlgId::Aes).spec_name() == "aes"@,
        spec_alg_by_name("aes"@) == Some(TpmAlgId::Aes),
        Tpm2shAlgId(TpmAlgId::KeyedHash).spec_name() == "keyedhash"@,
        spec_alg_by_name("keyedhash"@) == Some(TpmAlgId::KeyedHash),
        Tpm2shAlgId(TpmAlgId::Xor).spec_name() == "xor"@,
        spec_alg_by_name("xor"@) == Some(TpmAlgId::Xor),
        Tpm2shAlgId(TpmAlgId::Sha256).spec_name() == "sha256"@,
        spec_alg_by_name("sha256"@) == Some(TpmAlgId::Sha256),
        Tpm2shAlgId(TpmAlgId::Sha384).spec_name() == "sha384"@,
        spec_alg_by_name("sha384"@) == Some(TpmAlgId::Sha384),
        Tpm2shAlgId(TpmAlgId::Sha512).spec_name() == "sha512"@,
        spec_alg_by_name("sha512"@) == Some(TpmAlgId::Sha512),
        Tpm2shAlgId(TpmAlgId::Null).spec_name() == "null"@,
        spec_alg_by_name("null"@) == Some(TpmAlgId::Null),
        Tpm2shAlgId(TpmAlgId::Sm3_256).spec_name() == "sm3_256"@,
        spec_alg_by_name("sm3_256"@) == Some(TpmAlgId::Sm3_256),
        Tpm2shAlgId(TpmAlgId::Sm4).spec_name() == "sm4"@,
        spec_alg_by_name("sm4"@) == Some(TpmAlgId::Sm4),
        Tpm2shAlgId(TpmAlgId::Ecc).spec_name() == "ecc"@,
        spec_alg_by_name("ecc"@) == Some(TpmAlgId::Ecc),
{
    lemma_alg_name_roundtrip(Tpm2shAlgId(TpmAlgId::Rsa));
    lemma_alg_name_roundtrip(Tpm2shAlgId(TpmAlgId::Sha1));
    lemma_alg_name_roundtrip(Tpm2shAlgId(TpmAlgId::Hmac));
    lemma_alg_name_roundtrip(Tpm2shAlgId(TpmAlgId::Aes));
    lemma_alg_name_roundtrip(Tpm2shAlgId(TpmAlgId::KeyedHash));
    lemma_alg_name_roundtrip(Tpm2shAlgId(TpmAlgId::Xor));
    lemma_alg_name_roundtrip(Tpm2shAlgId(TpmAlgId::Sha256));
    lemma_alg_name_roundtrip(Tpm2shAlgId(TpmAlgId::Sha384));
    lemma_alg_name_roundtrip(Tpm2shAlgId(TpmAlgId::Sha512));
    lemma_alg_name_roundtrip(Tpm2shAlgId(TpmAlgId::Null));
    lemma_alg_name_roundtrip(Tpm2shAlgId(TpmAlgId::Sm3_256));
    lemma_alg_name_roundtrip(Tpm2shAlgId(TpmAlgId::Sm4));
    lemma_alg_name_roundtrip(Tpm2shAlgId(TpmAlgId::Ecc));
}

/// The parameters that an algorithm string gives a key.
#[derive(Debug, Clone, Copy, PartialEq, Eq, Structural)]
pub enum AlgInfo {
    Rsa { key_bits: u16 },
    Ecc { curve_id: TpmEccCurve },
    KeyedHash,
}

/// A key algorithm, as the command line names it.
#[derive(Debug, Clone, PartialEq, Eq)]
pub struct Alg {
    pub name: String,
    pub object_type: TpmAlgId,
    pub name_alg: TpmAlgId,
    pub params: AlgInfo,
}

/// The value of a key algorithm.
pub struct AlgView {
    pub name: Seq<char>,
    pub object_type: TpmAlgId,
    pub name_alg: TpmAlgId,
    pub params: AlgInfo,
}

impl View for Alg {
    type V = AlgView;

    open spec fn view(&self) -> AlgView {
        AlgView { name: self.name@, object_type: self.object_type, name_alg: self.name_alg, params: self.params }
    }
}

/// The position of the first `c` in `s` at or after `from`, if there is one.
pub open spec fn spec_find_char(s: Seq<char>, c: char, from: int) -> Option<int>
    decreases s.len() - from,
{
    if from < 0 || from >= s.len() {
        None
    } else if s[from] == c {
        Some(from)
    } else {
        spec_find_char(s, c, from + 1)
    }
}

/// The key size that `t` spells, as `u16` reads it from decimal.
pub open spec fn spec_key_bits(t: Seq<char>) -> Option<u16> {
    match spec_from_str_radix(t, 10) {
        Ok(v) => if v <= 0xFFFF {
            Some(v as u16)
        } else {
            None
        },
        Err(_) => None,
    }
}

/// The curve that a command-line curve name stands for, if any.
pub open spec fn spec_curve_by_name(t: Seq<char>) -> Option<Tpm2shEccCurve> {
    if exists|c: Tpm2shEccCurve| c.spec_name() == t {
        Some(choose|c: Tpm2shEccCurve| c.spec_name() == t)
    } else {
        None
    }
}

/// The algorithm that `s` names: `rsa-<bits>:<hash>`, `ecc-<curve>:<hash>`
/// or `keyedhash:<hash>`, with the text after the prefix split at its first
/// colon. Each part that does not read is an error that carries it.
pub open spec fn spec_parse_alg(s: Seq<char>) -> Result<AlgView, KeyErrorView> {
    if s.len() >= 4 && s.subrange(0, 4) == "rsa-"@ {
        match spec_find_char(s, ':', 4) {
            None => Err(KeyErrorView::InvalidAlgorithmFormat(s)),
            Some(i) => {
                let bits = s.subrange(4, i);
                let hash = s.subrange(i + 1, s.len() as int);
                match spec_key_bits(bits) {
                    None => Err(KeyErrorView::InvalidRsaKeyBits(bits)),
                    Some(key_bits) => match spec_alg_by_name(hash) {
                        None => Err(KeyErrorView::InvalidAlgorithm(hash)),
                        Some(name_alg) => Ok(
                            AlgView {
                                name: s,
                                object_type: TpmAlgId::Rsa,
                                name_alg,
                                params: AlgInfo::Rsa { key_bits },
                            },
                        ),
                    },
                }
            },
        }
    } else if s.len() >= 4 && s.subrange(0, 4) == "ecc-"@ {
        match spec_find_char(s, ':', 4) {
            None => Err(KeyErrorView::InvalidAlgorithmFormat(s)),
            Some(i) => {
                let curve = s.subrange(4, i);
                let hash = s.subrange(i + 1, s.len() as int);
                match spec_curve_by_name(curve) {
                    None => Err(KeyErrorView::InvalidEccCurve("Matching variant not found"@)),
                    Some(c) => match spec_alg_by_name(hash) {
                        None => Err(KeyErrorView::InvalidAlgorithm(hash)),
                        Some(name_alg) => Ok(
                            AlgView {
                                name: s,
                                object_type: TpmAlgId::Ecc,
                                name_alg,
                                params: AlgInfo::Ecc { curve_id: c.spec_ecc_curve() },
                            },
                        ),
                    },
                }
            },
        }
    } else if s.len() >= 10 && s.subrange(0, 10) == "keyedhash:"@ {
        let hash = s.subrange(10, s.len() as int);
        match spec_alg_by_name(hash) {
            None => Err(KeyErrorView::InvalidAlgorithm(hash)),
            Some(name_alg) => Ok(
                AlgView { name: s, object_type: TpmAlgId::KeyedHash, name_alg, params: AlgInfo::KeyedHash },
            ),
        }
    } else {
        Err(KeyErrorView::InvalidAlgorithmFormat(s))
    }
}

/// Returns the position of the first `c` in `s` at or after `from`.
fn find_char(s: &Vec<char>, c: char, from: usize) -> (r: Option<usize>)
    requires
        from <= s@.len(),
    ensures
        match spec_find_char(s@, c, from as int) {
            None => r is None,
            Some(i) => r == Some(i as usize) && from <= i < s@.len(),
        },
{
    let mut i = from;
    while i < s.len()
        invariant
            from <= i <= s@.len(),
            spec_find_char(s@, c, from as int) == spec_find_char(s@, c, i as int),
        decreases s@.len() - i,
    {
        if s[i] == c {
            return Some(i);
        }
        i = i + 1;
    }
    None
}

/// Reads a decimal key size.
fn parse_key_bits(t: &str) -> (r: Option<u16>)
    ensures
        r == spec_key_bits(t@),
{
    let chars = str_chars(t);
    proof {
        assert(chars@.subrange(0, chars@.len() as int) =~= t@);
    }
    match from_str_radix(&chars, 0, chars.len(), 10) {
        Ok(v) => if v <= 0xFFFF {
            Some(v as u16)
        } else {
            None
        },
        Err(_) => None,
    }
}

impl Alg {
    /// Makes the keyed-hash algorithm with the name algorithm `hash_alg`,
    /// named `keyedhash:<hash_alg>`.
    pub fn new_keyedhash(hash_alg: &str) -> (r: Result<Alg, KeyError>)
        ensures
            match spec_alg_by_name(hash_alg@) {
                None => r matches Err(e) && e@ == KeyErrorView::InvalidAlgorithm(hash_alg@),
                Some(name_alg) => r matches Ok(a) && a@ == (AlgView {
                    name: "keyedhash:"@ + hash_alg@,
                    object_type: TpmAlgId::KeyedHash,
                    name_alg,
                    params: AlgInfo::KeyedHash,
                }),
            },
    {
        let name_alg = Tpm2shAlgId::try_from_str(hash_alg)?.0;
        let mut name = String::from_str("keyedhash:");
        append_str(&mut name, hash_alg);
        Ok(Alg { name, object_type: TpmAlgId::KeyedHash, name_alg, params: AlgInfo::KeyedHash })
    }

    /// Reads an algorithm string.
    pub fn from_str(s: &str) -> (r: Result<Alg, KeyError>)
        ensures
            match spec_parse_alg(s@) {
                Ok(v) => r matches Ok(a) && a@ == v,
                Err(e) => r matches Err(x) && x@ == e,
            },
    {
        let chars = str_chars(s);
        let n = chars.len();
        if n >= 4 && chars_equal_str(&chars, 0, 4, "rsa-") {
            let i = match find_char(&chars, ':', 4) {
                None => return Err(KeyError::InvalidAlgorithmFormat(String::from_str(s))),
                Some(i) => i,
            };
            let bits_str = s.substring_char(4, i);
            let name_alg_str = s.substring_char(i + 1, n);
            let key_bits = match parse_key_bits(bits_str) {
                None => return Err(KeyError::InvalidRsaKeyBits(String::from_str(bits_str))),
                Some(k) => k,
            };
            let name_alg = Tpm2shAlgId::try_from_str(name_alg_str)?.0;
            Ok(Alg { name: String::from_str(s), object_type: TpmAlgId::Rsa, name_alg, params: AlgInfo::Rsa { key_bits } })
        } else if n >= 4 && chars_equal_str(&chars, 0, 4, "ecc-") {
            let i = match find_char(&chars, ':', 4) {
                None => return Err(KeyError::InvalidAlgorithmFormat(String::from_str(s))),
                Some(i) => i,
            };
            let curve_str = s.substring_char(4, i);
            let name_alg_str = s.substring_char(i + 1, n);
            let curve = match Tpm2shEccCurve::parse(curve_str) {
                Err(e) => {
                    proof {
                        if exists|c: Tpm2shEccCurve| c.spec_name() == curve_str@ {
                            let c = choose|c: Tpm2shEccCurve| c.spec_name() == curve_str@;
                            assert(curve_str@ != c.spec_name());
                        }
                    }
                    return Err(KeyError::InvalidEccCurve(e.to_string()));
                },
                Ok(c) => c,
            };
            proof {
                let d = choose|d: Tpm2shEccCurve| d.spec_name() == curve_str@;
                lemma_tpm2sh_ecc_curve_names_distinct(curve, d);
            }
            let name_alg = Tpm2shAlgId::try_from_str(name_alg_str)?.0;
            Ok(Alg {
                name: String::from_str(s),
                object_type: TpmAlgId::Ecc,
                name_alg,
                params: AlgInfo::Ecc { curve_id: curve.to_ecc_curve() },
            })
        } else if n >= 10 && chars_equal_str(&chars, 0, 10, "keyedhash:") {
            let name_alg_str = s.substring_char(10, n);
            let name_alg = Tpm2shAlgId::try_from_str(name_alg_str)?.0;
            Ok(Alg { name: String::from_str(s), object_type: TpmAlgId::KeyedHash, name_alg, params: AlgInfo::KeyedHash })
        } else {
            Err(KeyError::InvalidAlgorithmFormat(String::from_str(s)))
        }
    }

    /// Returns the name, as `Display` writes it.
    pub fn to_string(&self) -> (r: String)
        ensures
            r@ == self.name@,
    {
        self.name.clone()
    }
}

/// The attributes of an object made for an algorithm: `FIXED_TPM` and
/// `FIXED_PARENT` (`0x12`), and for any type but keyed-hash also
/// `SENSITIVE_DATA_ORIGIN`, `DECRYPT` and `RESTRICTED` (`0x30020` more).
pub open spec fn spec_object_attributes(object_type: TpmAlgId) -> u32 {
    if object_type == TpmAlgId::KeyedHash {
        0x12
    } else {
        0x30032
    }
}

impl From<Alg> for TpmaObject {
    fn from(alg: Alg) -> (r: TpmaObject) {
        let mut attributes = TpmaObject::FIXED_TPM | TpmaObject::FIXED_PARENT;
        assert(0x0000_0002u32 | 0x0000_0010u32 == 0x12u32) by (bit_vector);
        if alg.object_type != TpmAlgId::KeyedHash {
            attributes = attributes | TpmaObject::SENSITIVE_DATA_ORIGIN | TpmaObject::DECRYPT
                | TpmaObject::RESTRICTED;
            assert(0x12u32 | 0x0000_0020u32 | 0x0002_0000u32 | 0x0001_0000u32 == 0x30032u32) by (bit_vector);
        }
        TpmaObject(attributes)
    }
}

impl vstd::std_specs::convert::FromSpecImpl<Alg> for TpmaObject {
    open spec fn obeys_from_spec() -> bool {
        true
    }

    open spec fn from_spec(alg: Alg) -> TpmaObject {
        TpmaObject(spec_object_attributes(alg.object_type))
    }
}

/// The name of the algorithm of a public area: `rsa-<bits>:<hash>`,
/// `ecc-<curve>:<hash>` or `keyedhash:<hash>`; `rsa` or `ecc` alone when the
/// parameters are not of the object's type; the name of the type for any
/// other type.
pub open spec fn spec_format_alg(p: PublicView) -> Seq<char> {
    let name = Tpm2shAlgId(p.name_alg).spec_name();
    match p.object_type {
        TpmAlgId::Rsa => match p.parameters {
            TpmuPublicParms::Rsa(params) => "rsa-"@ + spec_decimal(params.key_bits as nat) + ":"@ + name,
            _ => "rsa"@,
        },
        TpmAlgId::Ecc => match p.parameters {
            TpmuPublicParms::Ecc(params) => "ecc-"@ + Tpm2shEccCurve::spec_from_ecc_curve(
                params.curve_id,
            ).spec_name() + ":"@ + name,
            _ => "ecc"@,
        },
        TpmAlgId::KeyedHash => "keyedhash:"@ + name,
        _ => Tpm2shAlgId(p.object_type).spec_name(),
    }
}

/// Returns the name of the algorithm of a public area.
pub fn format_alg_from_public(public: &TpmtPublic) -> (r: String)
    ensures
        r@ == spec_format_alg(public@),
{
    let name_alg_str = Tpm2shAlgId(public.name_alg).to_string();
    match public.object_type {
        TpmAlgId::Rsa => match public.parameters {
            TpmuPublicParms::Rsa(params) => {
                let mut out = String::from_str("rsa-");
                let bits = decimal_string(params.key_bits as u64);
                append_str(&mut out, bits.as_str());
                append_str(&mut out, ":");
                append_str(&mut out, name_alg_str.as_str());
                out
            },
            _ => String::from_str("rsa"),
        },
        TpmAlgId::Ecc => match public.parameters {
            TpmuPublicParms::Ecc(params) => {
                let mut out = String::from_str("ecc-");
                append_str(&mut out, Tpm2shEccCurve::from_ecc_curve(params.curve_id).name());
                append_str(&mut out, ":");
                append_str(&mut out, name_alg_str.as_str());
                out
            },
            _ => String::from_str("ecc"),
        },
        TpmAlgId::KeyedHash => {
            let mut out = String::from_str("keyedhash:");
            append_str(&mut out, name_alg_str.as_str());
            out
        },
        _ => Tpm2shAlgId(public.object_type).to_string(),
    }
}

/// The first `c` at or after `from` is at `to` when `s[to]` is `c` and no
/// character from `from` up to `to` is.
proof fn lemma_find_char_first(s: Seq<char>, c: char, from: int, to: int)
    requires
        0 <= from <= to < s.len(),
        s[to] == c,
        forall|k: int| from <= k < to ==> s[k] != c,
    ensures
        spec_find_char(s, c, from) == Some(to),
    decreases to - from,
{
    if from < to {
        lemma_find_char_first(s, c, from + 1, to);
    }
}

/// No curve name holds a colon.
proof fn lemma_curve_name_has_no_colon(c: Tpm2shEccCurve)
    ensures
        forall|k: int| 0 <= k < c.spec_name().len() ==> c.spec_name()[k] != ':',
{
    match c {
        Tpm2shEccCurve::NistP192 => {
            reveal_strlit("nist-p192");
            assert forall|k: int| 0 <= k < 9 implies "nist-p192"@[k] != ':' by {
                if k == 0 {} else if k == 1 {} else if k == 2 {} else if k == 3 {} else if k == 4 {} else if k == 5 {} else if k == 6 {} else if k == 7 {} else if k == 8 {}
            }
        },
        Tpm2shEccCurve::NistP224 => {
            reveal_strlit("nist-p224");
            assert forall|k: int| 0 <= k < 9 implies "nist-p224"@[k] != ':' by {
                if k == 0 {} else if k == 1 {} else if k == 2 {} else if k == 3 {} else if k == 4 {} else if k == 5 {} else if k == 6 {} else if k == 7 {} else if k == 8 {}
            }
        },
        Tpm2shEccCurve::NistP256 => {
            reveal_strlit("nist-p256");
            assert forall|k: int| 0 <= k < 9 implies "nist-p256"@[k] != ':' by {
                if k == 0 {} else if k == 1 {} else if k == 2 {} else if k == 3 {} else if k == 4 {} else if k == 5 {} else if k == 6 {} else if k == 7 {} else if k == 8 {}
            }
        },
        Tpm2shEccCurve::NistP384 => {
            reveal_strlit("nist-p384");
            assert forall|k: int| 0 <= k < 9 implies "nist-p384"@[k] != ':' by {
                if k == 0 {} else if k == 1 {} else if k == 2 {} else if k == 3 {} else if k == 4 {} else if k == 5 {} else if k == 6 {} else if k == 7 {} else if k == 8 {}
            }
        },
        Tpm2shEccCurve::NistP521 => {
            reveal_strlit("nist-p521");
            assert forall|k: int| 0 <= k < 9 implies "nist-p521"@[k] != ':' by {
                if k == 0 {} else if k == 1 {} else if k == 2 {} else if k == 3 {} else if k == 4 {} else if k == 5 {} else if k == 6 {} else if k == 7 {} else if k == 8 {}
            }
        },
        Tpm2shEccCurve::BnP256 => {
            reveal_strlit("bn-p256");
            assert forall|k: int| 0 <= k < 7 implies "bn-p256"@[k] != ':' by {
                if k == 0 {} else if k == 1 {} else if k == 2 {} else if k == 3 {} else if k == 4 {} else if k == 5 {} else if k == 6 {}
            }
        },
        Tpm2shEccCurve::BnP638 => {
            reveal_strlit("bn-p638");
            assert forall|k: int| 0 <= k < 7 implies "bn-p638"@[k] != ':' by {
                if k == 0 {} else if k == 1 {} else if k == 2 {} else if k == 3 {} else if k == 4 {} else if k == 5 {} else if k == 6 {}
            }
        },
        Tpm2shEccCurve::Sm2P256 => {
            reveal_strlit("sm2-p256");
            assert forall|k: int| 0 <= k < 8 implies "sm2-p256"@[k] != ':' by {
                if k == 0 {} else if k == 1 {} else if k == 2 {} else if k == 3 {} else if k == 4 {} else if k == 5 {} else if k == 6 {} else if k == 7 {}
            }
        },
        Tpm2shEccCurve::BpP256R1 => {
            reveal_strlit("bp-p256-r1");
            assert forall|k: int| 0 <= k < 10 implies "bp-p256-r1"@[k] != ':' by {
                if k == 0 {} else if k == 1 {} else if k == 2 {} else if k == 3 {} else if k == 4 {} else if k == 5 {} else if k == 6 {} else if k == 7 {} else if k == 8 {} else if k == 9 {}
            }
        },
        Tpm2shEccCurve::BpP384R1 => {
            reveal_strlit("bp-p384-r1");
            assert forall|k: int| 0 <= k < 10 implies "bp-p384-r1"@[k] != ':' by {
                if k == 0 {} else if k == 1 {} else if k == 2 {} else if k == 3 {} else if k == 4 {} else if k == 5 {} else if k == 6 {} else if k == 7 {} else if k == 8 {} else if k == 9 {}
            }
        },
        Tpm2shEccCurve::BpP512R1 => {
            reveal_strlit("bp-p512-r1");
            assert forall|k: int| 0 <= k < 10 implies "bp-p512-r1"@[k] != ':' by {
                if k == 0 {} else if k == 1 {} else if k == 2 {} else if k == 3 {} else if k == 4 {} else if k == 5 {} else if k == 6 {} else if k == 7 {} else if k == 8 {} else if k == 9 {}
            }
        },
        Tpm2shEccCurve::Curve25519 => {
            reveal_strlit("curve25519");
            assert forall|k: int| 0 <= k < 10 implies "curve25519"@[k] != ':' by {
                if k == 0 {} else if k == 1 {} else if k == 2 {} else if k == 3 {} else if k == 4 {} else if k == 5 {} else if k == 6 {} else if k == 7 {} else if k == 8 {} else if k == 9 {}
            }
        },
        Tpm2shEccCurve::Curve448 => {
            reveal_strlit("curve448");
            assert forall|k: int| 0 <= k < 8 implies "curve448"@[k] != ':' by {
                if k == 0 {} else if k == 1 {} else if k == 2 {} else if k == 3 {} else if k == 4 {} else if k == 5 {} else if k == 6 {} else if k == 7 {}
            }
        },
        Tpm2shEccCurve::NoCurve => {
            reveal_strlit("none");
            assert forall|k: int| 0 <= k < 4 implies "none"@[k] != ':' by {
                if k == 0 {} else if k == 1 {} else if k == 2 {} else if k == 3 {}
            }
        },
    }
}

/// A curve's name reads back as the curve.
proof fn lemma_curve_by_name(c: Tpm2shEccCurve)
    ensures
        spec_curve_by_name(c.spec_name()) == Some(c),
{
    let d = choose|d: Tpm2shEccCurve| d.spec_name() == c.spec_name();
    lemma_tpm2sh_ecc_curve_names_distinct(c, d);
}

/// The parameters that the algorithm name of a public area carries.
pub open spec fn spec_alg_info(p: PublicView) -> AlgInfo {
    match p.object_type {
        TpmAlgId::Rsa => match p.parameters {
            TpmuPublicParms::Rsa(r) => AlgInfo::Rsa { key_bits: r.key_bits },
            _ => AlgInfo::KeyedHash,
        },
        TpmAlgId::Ecc => match p.parameters {
            TpmuPublicParms::Ecc(e) => AlgInfo::Ecc { curve_id: e.curve_id },
            _ => AlgInfo::KeyedHash,
        },
        _ => AlgInfo::KeyedHash,
    }
}

/// The algorithm name that `format_alg_from_public` gives an RSA, ECC or
/// keyed-hash public area, whose parameters are of its type and whose name
/// algorithm has a command-line name, reads back with `Alg::from_str` as that
/// type, name algorithm and parameters.
pub proof fn lemma_format_alg_parses_back(p: PublicView)
    requires
        Tpm2shAlgId(p.name_alg).is_named(),
        match p.object_type {
            TpmAlgId::Rsa => p.parameters is Rsa,
            TpmAlgId::Ecc => p.parameters is Ecc,
            TpmAlgId::KeyedHash => true,
            _ => false,
        },
    ensures
        spec_parse_alg(spec_format_alg(p)) == Ok::<AlgView, KeyErrorView>(
            AlgView {
                name: spec_format_alg(p),
                object_type: p.object_type,
                name_alg: p.name_alg,
                params: spec_alg_info(p),
            },
        ),
{
    let s = spec_format_alg(p);
    let name = Tpm2shAlgId(p.name_alg).spec_name();
    reveal_strlit("rsa-");
    reveal_strlit("ecc-");
    reveal_strlit("keyedhash:");
    reveal_strlit(":");
    lemma_alg_name_roundtrip(Tpm2shAlgId(p.name_alg));
    match p.parameters {
        TpmuPublicParms::Rsa(r) if p.object_type == TpmAlgId::Rsa => {
            let dec = spec_decimal(r.key_bits as nat);
            lemma_decimal_reads_back(r.key_bits as nat);
            let i: int = 4 + dec.len() as int;
            assert(s.subrange(0, 4) =~= "rsa-"@);
            assert(s[i] == ':');
            assert forall|k: int| 4 <= k < i implies s[k] != ':' by {
                assert(s[k] == dec[k - 4]);
            }
            lemma_find_char_first(s, ':', 4, i);
            assert(s.subrange(4, i) =~= dec);
            assert(s.subrange(i + 1, s.len() as int) =~= name);
        },
        TpmuPublicParms::Ecc(e) if p.object_type == TpmAlgId::Ecc => {
            let c = Tpm2shEccCurve::spec_from_ecc_curve(e.curve_id);
            let cname = c.spec_name();
            lemma_curve_name_has_no_colon(c);
            lemma_curve_by_name(c);
            let i: int = 4 + cname.len() as int;
            assert(s.subrange(0, 4)[0] != "rsa-"@[0]);
            assert(s.subrange(0, 4) =~= "ecc-"@);
            assert(s[i] == ':');
            assert forall|k: int| 4 <= k < i implies s[k] != ':' by {
                assert(s[k] == cname[k - 4]);
            }
            lemma_find_char_first(s, ':', 4, i);
            assert(s.subrange(4, i) =~= cname);
            assert(s.subrange(i + 1, s.len() as int) =~= name);
            assert(c.spec_ecc_curve() == e.curve_id);
        },
        _ => {
            assert(p.object_type == TpmAlgId::KeyedHash);
            assert(s.subrange(0, 4)[0] != "rsa-"@[0]);
            assert(s.subrange(0, 4)[0] != "ecc-"@[0]);
            assert(s.subrange(0, 10) =~= "keyedhash:"@);
            assert(s.subrange(10, s.len() as int) =~= name);
        },
    }
}

/// The first byte of an uncompressed elliptic curve point.
pub const UNCOMPRESSED_POINT_TAG: u8 = 0x04;

/// The attributes of an imported key: `USER_WITH_AUTH` and `DECRYPT`.
pub open spec fn spec_imported_key_attributes() -> u32 {
    0x0002_0040
}

/// The public area of an imported ECC key with the uncompressed point
/// `pub_bytes` (`0x04`, then `x`, then `y`, `x` taking half of the rest
/// rounded down): an ECDH key with the name algorithm `hash_alg`, no
/// policy and no key derivation scheme. A point without the tag is an
/// `InvalidEccPoint` error that carries its hexadecimal text, a coordinate
/// longer than an ECC parameter a `CapacityExceeded` error.
pub open spec fn spec_ecc_to_public(
    pub_bytes: Seq<u8>,
    curve_id: TpmEccCurve,
    hash_alg: TpmAlgId,
    symmetric: TpmtSymDef,
) -> Result<PublicView, KeyErrorView> {
    if pub_bytes.len() == 0 || pub_bytes[0] != UNCOMPRESSED_POINT_TAG {
        Err(KeyErrorView::InvalidEccPoint(spec_hex_encode(pub_bytes)))
    } else {
        let coord_len = (pub_bytes.len() - 1) / 2;
        let x = pub_bytes.subrange(1, 1 + coord_len);
        let y = pub_bytes.subrange(1 + coord_len, pub_bytes.len() as int);
        if x.len() > MAX_ECC_KEY_BYTES || y.len() > MAX_ECC_KEY_BYTES {
            Err(KeyErrorView::CapacityExceeded)
        } else {
            Ok(
                PublicView {
                    object_type: TpmAlgId::Ecc,
                    name_alg: hash_alg,
                    object_attributes: spec_imported_key_attributes(),
                    auth_policy: Seq::empty(),
                    parameters: TpmuPublicParms::Ecc(
                        TpmsEccParms {
                            symmetric,
                            scheme: TpmtEccScheme {
                                scheme: TpmAlgId::Ecdh,
                                details: TpmuAsymScheme::Hash(TpmsSchemeHash { hash_alg }),
                            },
                            curve_id,
                            kdf: TpmtKdfScheme { scheme: TpmAlgId::Null },
                        },
                    ),
                    unique: PublicIdView::Ecc(EccPointView { x, y }),
                },
            )
        }
    }
}

/// Returns the public area of an imported ECC key.
pub fn ecc_to_public(
    pub_bytes: &[u8],
    curve_id: TpmEccCurve,
    hash_alg: TpmAlgId,
    symmetric: TpmtSymDef,
) -> (r: Result<TpmtPublic, KeyError>)
    ensures
        match spec_ecc_to_public(pub_bytes@, curve_id, hash_alg, symmetric) {
            Ok(v) => r matches Ok(p) && p@ == v,
            Err(e) => r matches Err(x) && x@ == e,
        },
{
    if pub_bytes.len() == 0 || pub_bytes[0] != UNCOMPRESSED_POINT_TAG {
        return Err(KeyError::InvalidEccPoint(hex_encode(pub_bytes)));
    }
    let coord_len = (pub_bytes.len() - 1) / 2;
    let x = slice_subrange(pub_bytes, 1, 1 + coord_len);
    let y = slice_subrange(pub_bytes, 1 + coord_len, pub_bytes.len());
    if x.len() > MAX_ECC_KEY_BYTES || y.len() > MAX_ECC_KEY_BYTES {
        return Err(KeyError::CapacityExceeded);
    }
    assert(0x0000_0040u32 | 0x0002_0000u32 == 0x0002_0040u32) by (bit_vector);
    Ok(TpmtPublic {
        object_type: TpmAlgId::Ecc,
        name_alg: hash_alg,
        object_attributes: TpmaObject(TpmaObject::USER_WITH_AUTH | TpmaObject::DECRYPT),
        auth_policy: Vec::new(),
        parameters: TpmuPublicParms::Ecc(TpmsEccParms {
            symmetric,
            scheme: TpmtEccScheme {
                scheme: TpmAlgId::Ecdh,
                details: TpmuAsymScheme::Hash(TpmsSchemeHash { hash_alg }),
            },
            curve_id,
            kdf: TpmtKdfScheme { scheme: TpmAlgId::Null },
        }),
        unique: TpmuPublicId::Ecc(TpmsEccPoint { x: slice_to_vec(x), y: slice_to_vec(y) }),
    })
}

/// The public area of an imported RSA key with the modulus `modulus`: an
/// OAEP key of `key_bits` bits with the name algorithm `hash_alg`, no policy
/// and the default exponent. A modulus longer than an RSA key is a
/// `CapacityExceeded` error.
pub open spec fn spec_rsa_to_public(
    modulus: Seq<u8>,
    hash_alg: TpmAlgId,
    symmetric: TpmtSymDef,
    key_bits: u16,
) -> Result<PublicView, KeyErrorView> {
    if modulus.len() > MAX_RSA_KEY_BYTES {
        Err(KeyErrorView::CapacityExceeded)
    } else {
        Ok(
            PublicView {
                object_type: TpmAlgId::Rsa,
                name_alg: hash_alg,
                object_attributes: spec_imported_key_attributes(),
                auth_policy: Seq::empty(),
                parameters: TpmuPublicParms::Rsa(
                    TpmsRsaParms {
                        symmetric,
                        scheme: TpmtRsaScheme {
                            scheme: TpmAlgId::Oaep,
                            details: TpmuAsymScheme::Hash(TpmsSchemeHash { hash_alg }),
                        },
                        key_bits,
                        exponent: 0,
                    },
                ),
                unique: PublicIdView::Rsa(modulus),
            },
        )
    }
}

/// Returns the public area of an imported RSA key.
pub fn rsa_to_public(modulus: &[u8], hash_alg: TpmAlgId, symmetric: TpmtSymDef, key_bits: u16) -> (r: Result<
    TpmtPublic,
    KeyError,
>)
    ensures
        match spec_rsa_to_public(modulus@, hash_alg, symmetric, key_bits) {
            Ok(v) => r matches Ok(p) && p@ == v,
            Err(e) => r matches Err(x) && x@ == e,
        },
{
    if modulus.len() > MAX_RSA_KEY_BYTES {
        return Err(KeyError::CapacityExceeded);
    }
    assert(0x0000_0040u32 | 0x0002_0000u32 == 0x0002_0040u32) by (bit_vector);
    Ok(TpmtPublic {
        object_type: TpmAlgId::Rsa,
        name_alg: hash_alg,
        object_attributes: TpmaObject(TpmaObject::USER_WITH_AUTH | TpmaObject::DECRYPT),
        auth_policy: Vec::new(),
        parameters: TpmuPublicParms::Rsa(TpmsRsaParms {
            symmetric,
            scheme: TpmtRsaScheme {
                scheme: TpmAlgId::Oaep,
                details: TpmuAsymScheme::Hash(TpmsSchemeHash { hash_alg }),
            },
            key_bits,
            exponent: 0,
        }),
        unique: TpmuPublicId::Rsa(slice_to_vec(modulus)),
    })
}

/// An OpenSSL key, carried through opaque.
#[verifier::external_type_specification]
#[verifier::external_body]
#[verifier::reject_recursive_types(T)]
pub struct ExPKey<T>(openssl::pkey::PKey<T>);

/// The marker of an OpenSSL key that holds private parts.
#[verifier::external_type_specification]
#[verifier::external_body]
pub struct ExPrivate(openssl::pkey::Private);

/// The long name that OpenSSL gives the object with the identifier `nid`, as
/// `Nid::long_name` returns it.
pub uninterp spec fn openssl_nid_long_name(nid: i32) -> Seq<char>;

/// The curve of an OpenSSL elliptic curve key, by OpenSSL's numeric object
/// identifier: `PKey::ec_key`, then `EcGroupRef::curve_name` of its group.
/// `None` when the group has no name; a key that is no elliptic curve key is a
/// `Crypto` error. Which identifier comes back depends on the key, of which
/// nothing is stated.
#[verifier::external_body]
pub(crate) fn pkey_ec_curve_nid(pkey: &openssl::pkey::PKey<openssl::pkey::Private>) -> (r: Result<
    Option<i32>,
    TpmCryptoError,
>)
    ensures
        r matches Err(e) ==> e == TpmCryptoError::Crypto,
{
    let ec_key = pkey.ec_key().map_err(|_| TpmCryptoError::Crypto)?;
    Ok(ec_key.group().curve_name().map(|nid| nid.as_raw()))
}

/// The public point of an OpenSSL elliptic curve key in uncompressed form, by
/// `EcPointRef::to_bytes` with a fresh `BigNumContext`. Failures are `Crypto`
/// errors. Which bytes come back depends on the key, of which nothing is
/// stated.
#[verifier::external_body]
pub(crate) fn pkey_ec_public_point(pkey: &openssl::pkey::PKey<openssl::pkey::Private>) -> (r: Result<
    Vec<u8>,
    TpmCryptoError,
>)
    ensures
        r matches Err(e) ==> e == TpmCryptoError::Crypto,
{
    let ec_key = pkey.ec_key().map_err(|_| TpmCryptoError::Crypto)?;
    let mut ctx = openssl::bn::BigNumContext::new().map_err(|_| TpmCryptoError::Crypto)?;
    let form = openssl::ec::PointConversionForm::UNCOMPRESSED;
    ec_key.public_key().to_bytes(ec_key.group(), form, &mut ctx).map_err(|_| TpmCryptoError::Crypto)
}

/// The long name of an OpenSSL object identifier, by `Nid::long_name`; a
/// `Crypto` error where OpenSSL knows no name for it.
#[verifier::external_body]
fn nid_long_name(nid: i32) -> (r: Result<String, TpmCryptoError>)
    ensures
        r matches Ok(s) ==> s@ == openssl_nid_long_name(nid),
{
    let name = openssl::nid::Nid::from_raw(nid).long_name().map_err(|_| TpmCryptoError::Crypto)?;
    Ok(name.to_string())
}

/// The modulus of an OpenSSL RSA key: its size in bytes by `Rsa::size` and its
/// big-endian bytes by `BigNumRef::to_vec` of `Rsa::n`, after `PKey::rsa`. A key
/// that is no RSA key is a `Crypto` error. What comes back depends on the key,
/// of which nothing is stated.
#[verifier::external_body]
fn pkey_rsa_modulus(pkey: &openssl::pkey::PKey<openssl::pkey::Private>) -> (r: Result<
    (u32, Vec<u8>),
    TpmCryptoError,
>) {
    let rsa = pkey.rsa().map_err(|_| TpmCryptoError::Crypto)?;
    Ok((rsa.size(), rsa.n().to_vec()))
}

/// OpenSSL's object identifier of NIST P-256.
pub const NID_X9_62_PRIME256V1: i32 = 415;

/// OpenSSL's object identifier of NIST P-384.
pub const NID_SECP384R1: i32 = 715;

/// OpenSSL's object identifier of NIST P-521.
pub const NID_SECP521R1: i32 = 716;

/// The curve that an imported key may use, by OpenSSL's object identifier:
/// NIST P-256, P-384 and P-521.
pub open spec fn spec_curve_of_nid(nid: i32) -> Option<TpmEccCurve> {
    if nid == NID_X9_62_PRIME256V1 {
        Some(TpmEccCurve::NistP256)
    } else if nid == NID_SECP384R1 {
        Some(TpmEccCurve::NistP384)
    } else if nid == NID_SECP521R1 {
        Some(TpmEccCurve::NistP521)
    } else {
        None
    }
}

/// Returns the curve that an imported key may use, by OpenSSL's object
/// identifier.
pub fn curve_of_nid(nid: i32) -> (r: Option<TpmEccCurve>)
    ensures
        r == spec_curve_of_nid(nid),
{
    if nid == NID_X9_62_PRIME256V1 {
        Some(TpmEccCurve::NistP256)
    } else if nid == NID_SECP384R1 {
        Some(TpmEccCurve::NistP384)
    } else if nid == NID_SECP521R1 {
        Some(TpmEccCurve::NistP521)
    } else {
        None
    }
}

/// Returns the public area of an imported ECC key held by OpenSSL.
///
/// The key's curve must be NIST P-256, P-384 or P-521; another named curve is
/// an `InvalidEccCurve` error that carries OpenSSL's long name of it, and a
/// curve without a name an `InvalidFormat` error. The public area is the one
/// `ecc_to_public` builds from the key's uncompressed public point; failures
/// of OpenSSL are `Crypto` errors.
pub fn ecc_to_public_id(
    pkey: &openssl::pkey::PKey<openssl::pkey::Private>,
    hash_alg: TpmAlgId,
    symmetric: TpmtSymDef,
) -> (r: Result<TpmtPublic, KeyError>)
    ensures
        r matches Ok(p) ==> exists|bytes: Seq<u8>, curve: TpmEccCurve|
            {
                &&& (curve == TpmEccCurve::NistP256 || curve == TpmEccCurve::NistP384 || curve
                    == TpmEccCurve::NistP521)
                &&& spec_ecc_to_public(bytes, curve, hash_alg, symmetric) == Ok::<
                    PublicView,
                    KeyErrorView,
                >(p@)
            },
        r matches Err(KeyError::InvalidEccCurve(s)) ==> exists|nid: i32|
            spec_curve_of_nid(nid) is None && s@ == openssl_nid_long_name(nid),
{
    let nid = match pkey_ec_curve_nid(pkey) {
        Ok(Some(nid)) => nid,
        Ok(None) => {
            return Err(KeyError::InvalidFormat);
        },
        Err(e) => {
            return Err(KeyError::Crypto(e));
        },
    };
    let curve_id = match curve_of_nid(nid) {
        Some(c) => c,
        None => {
            return match nid_long_name(nid) {
                Ok(name) => Err(KeyError::InvalidEccCurve(name)),
                Err(e) => Err(KeyError::Crypto(e)),
            };
        },
    };
    let pub_bytes = match pkey_ec_public_point(pkey) {
        Ok(b) => b,
        Err(e) => {
            return Err(KeyError::Crypto(e));
        },
    };
    let r = ecc_to_public(pub_bytes.as_slice(), curve_id, hash_alg, symmetric);
    assert(r matches Ok(p) ==> spec_ecc_to_public(pub_bytes@, curve_id, hash_alg, symmetric)
        == Ok::<PublicView, KeyErrorView>(p@));
    r
}

/// Returns the public area of an imported RSA key held by OpenSSL.
///
/// The key size is the modulus size in bits; one that does not fit a `u16` is
/// an `InvalidRsaKeyBits` error that carries it in decimal. The public area is
/// the one `rsa_to_public` builds from the key's modulus; failures of OpenSSL
/// are `Crypto` errors.
pub fn rsa_to_public_id(
    pkey: &openssl::pkey::PKey<openssl::pkey::Private>,
    hash_alg: TpmAlgId,
    symmetric: TpmtSymDef,
) -> (r: Result<TpmtPublic, KeyError>)
    ensures
        r matches Ok(p) ==> exists|modulus: Seq<u8>, bits: u16|
            {
                &&& bits % 8 == 0
                &&& #[trigger] spec_rsa_to_public(modulus, hash_alg, symmetric, bits) == Ok::<
                    PublicView,
                    KeyErrorView,
                >(p@)
            },
        r matches Err(KeyError::InvalidRsaKeyBits(s)) ==> exists|bits: nat|
            bits > u16::MAX && #[trigger] spec_decimal(bits) == s@,
{
    let (size, modulus) = match pkey_rsa_modulus(pkey) {
        Ok(m) => m,
        Err(e) => {
            return Err(KeyError::Crypto(e));
        },
    };
    if size > 8191 {
        let bits: u64 = size as u64 * 8;
        return Err(KeyError::InvalidRsaKeyBits(decimal_string(bits)));
    }
    let key_bits: u16 = (size * 8) as u16;
    let r = rsa_to_public(modulus.as_slice(), hash_alg, symmetric, key_bits);
    assert(key_bits % 8 == 0);
    assert(r matches Ok(p) ==> spec_rsa_to_public(modulus@, hash_alg, symmetric, key_bits) == Ok::<
        PublicView,
        KeyErrorView,
    >(p@));
    r
}

} // verus!
