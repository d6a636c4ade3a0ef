//! Elliptic curves by name and by curve identifier.

use crate::data::curve::TpmEccCurve;
use crate::hash::TpmCryptoError;
use crate::text::{chars_equal_str, str_chars, ParseError};
use vstd::prelude::*;
use vstd::string::StringExecFns;

verus! {

/// TPM 2.0 ECC curves.
#[derive(Debug, Clone, Copy, PartialEq, Eq, Structural)]
pub enum TpmEllipticCurve {
    NistP192,
    NistP224,
    NistP256,
    NistP384,
    NistP521,
    BnP256,
    BnP638,
    Sm2P256,
    BpP256R1,
    BpP384R1,
    BpP512R1,
    Curve25519,
    Curve448,
}

impl TpmEllipticCurve {
    /// The name of the variant, as it is written on the command line.
    pub open spec fn spec_name(self) -> Seq<char> {
        match self {
            TpmEllipticCurve::NistP192 => "nist-p192"@,
            TpmEllipticCurve::NistP224 => "nist-p224"@,
            TpmEllipticCurve::NistP256 => "nist-p256"@,
            TpmEllipticCurve::NistP384 => "nist-p384"@,
            TpmEllipticCurve::NistP521 => "nist-p521"@,
            TpmEllipticCurve::BnP256 => "bn-p256"@,
            TpmEllipticCurve::BnP638 => "bn-p638"@,
            TpmEllipticCurve::Sm2P256 => "sm2-p256"@,
            TpmEllipticCurve::BpP256R1 => "bp-p256-r1"@,
            TpmEllipticCurve::BpP384R1 => "bp-p384-r1"@,
            TpmEllipticCurve::BpP512R1 => "bp-p512-r1"@,
            TpmEllipticCurve::Curve25519 => "curve25519"@,
            TpmEllipticCurve::Curve448 => "curve448"@,
        }
    }

    /// Returns the name of the variant.
    pub fn name(self) -> (r: &'static str)
        ensures
            r@ == self.spec_name(),
    {
        match self {
            TpmEllipticCurve::NistP192 => "nist-p192",
            TpmEllipticCurve::NistP224 => "nist-p224",
            TpmEllipticCurve::NistP256 => "nist-p256",
            TpmEllipticCurve::NistP384 => "nist-p384",
            TpmEllipticCurve::NistP521 => "nist-p521",
            TpmEllipticCurve::BnP256 => "bn-p256",
            TpmEllipticCurve::BnP638 => "bn-p638",
            TpmEllipticCurve::Sm2P256 => "sm2-p256",
            TpmEllipticCurve::BpP256R1 => "bp-p256-r1",
            TpmEllipticCurve::BpP384R1 => "bp-p384-r1",
            TpmEllipticCurve::BpP512R1 => "bp-p512-r1",
            TpmEllipticCurve::Curve25519 => "curve25519",
            TpmEllipticCurve::Curve448 => "curve448",
        }
    }

    /// Returns the name of the variant, as `Display` writes it.
    pub fn to_string(&self) -> (r: String)
        ensures
            r@ == self.spec_name(),
    {
        String::from_str(self.name())
    }

    /// Parses the name of a variant.
    pub fn parse(s: &str) -> (r: Result<TpmEllipticCurve, ParseError>)
        ensures
            match r {
                Ok(v) => s@ == v.spec_name(),
                Err(_) => forall|v: TpmEllipticCurve| s@ != v.spec_name(),
            },
    {
        let chars = str_chars(s);
        let n = chars.len();
        if chars_equal_str(&chars, 0, n, "nist-p192") {
            assert(chars@.subrange(0, n as int) =~= s@);
            Ok(TpmEllipticCurve::NistP192)
        } else if chars_equal_str(&chars, 0, n, "nist-p224") {
            assert(chars@.subrange(0, n as int) =~= s@);
            Ok(TpmEllipticCurve::NistP224)
        } else if chars_equal_str(&chars, 0, n, "nist-p256") {
            assert(chars@.subrange(0, n as int) =~= s@);
            Ok(TpmEllipticCurve::NistP256)
        } else if chars_equal_str(&chars, 0, n, "nist-p384") {
            assert(chars@.subrange(0, n as int) =~= s@);
            Ok(TpmEllipticCurve::NistP384)
        } else if chars_equal_str(&chars, 0, n, "nist-p521") {
            assert(chars@.subrange(0, n as int) =~= s@);
            Ok(TpmEllipticCurve::NistP521)
        } else if chars_equal_str(&chars, 0, n, "bn-p256") {
            assert(chars@.subrange(0, n as int) =~= s@);
            Ok(TpmEllipticCurve::BnP256)
        } else if chars_equal_str(&chars, 0, n, "bn-p638") {
            assert(chars@.subrange(0, n as int) =~= s@);
            Ok(TpmEllipticCurve::BnP638)
        } else if chars_equal_str(&chars, 0, n, "sm2-p256") {
            assert(chars@.subrange(0, n as int) =~= s@);
            Ok(TpmEllipticCurve::Sm2P256)
        } else if chars_equal_str(&chars, 0, n, "bp-p256-r1") {
            assert(chars@.subrange(0, n as int) =~= s@);
            Ok(TpmEllipticCurve::BpP256R1)
        } else if chars_equal_str(&chars, 0, n, "bp-p384-r1") {
            assert(chars@.subrange(0, n as int) =~= s@);
            Ok(TpmEllipticCurve::BpP384R1)
        } else if chars_equal_str(&chars, 0, n, "bp-p512-r1") {
            assert(chars@.subrange(0, n as int) =~= s@);
            Ok(TpmEllipticCurve::BpP512R1)
        } else if chars_equal_str(&chars, 0, n, "curve25519") {
            assert(chars@.subrange(0, n as int) =~= s@);
            Ok(TpmEllipticCurve::Curve25519)
        } else if chars_equal_str(&chars, 0, n, "curve448") {
            assert(chars@.subrange(0, n as int) =~= s@);
            Ok(TpmEllipticCurve::Curve448)
        } else {
            assert(chars@.subrange(0, n as int) =~= s@);
            assert forall|v: TpmEllipticCurve| s@ != v.spec_name() by {
                match v {
                    TpmEllipticCurve::NistP192 => {},
                    TpmEllipticCurve::NistP224 => {},
                    TpmEllipticCurve::NistP256 => {},
                    TpmEllipticCurve::NistP384 => {},
                    TpmEllipticCurve::NistP521 => {},
                    TpmEllipticCurve::BnP256 => {},
                    TpmEllipticCurve::BnP638 => {},
                    TpmEllipticCurve::Sm2P256 => {},
                    TpmEllipticCurve::BpP256R1 => {},
                    TpmEllipticCurve::BpP384R1 => {},
                    TpmEllipticCurve::BpP512R1 => {},
                    TpmEllipticCurve::Curve25519 => {},
                    TpmEllipticCurve::Curve448 => {},
                }
            }
            Err(ParseError::VariantNotFound)
        }
    }
}

/// Different variants have different names.
pub proof fn lemma_tpm_elliptic_curve_names_distinct(a: TpmEllipticCurve, b: TpmEllipticCurve)
    ensures
        a.spec_name() == b.spec_name() ==> a == b,
{
    reveal_strlit("nist-p192");
    reveal_strlit("nist-p224");
    reveal_strlit("nist-p256");
    reveal_strlit("nist-p384");
    reveal_strlit("nist-p521");
    reveal_strlit("bn-p256");
    reveal_strlit("bn-p638");
    reveal_strlit("sm2-p256");
    reveal_strlit("bp-p256-r1");
    reveal_strlit("bp-p384-r1");
    reveal_strlit("bp-p512-r1");
    reveal_strlit("curve25519");
    reveal_strlit("curve448");
    assert("nist-p192"@.len() == 9);
    assert("nist-p224"@.len() == 9);
    assert("nist-p256"@.len() == 9);
    assert("nist-p384"@.len() == 9);
    assert("nist-p521"@.len() == 9);
    assert("bn-p256"@.len() == 7);
    assert("bn-p638"@.len() == 7);
    assert("sm2-p256"@.len() == 8);
    assert("bp-p256-r1"@.len() == 10);
    assert("bp-p384-r1"@.len() == 10);
    assert("bp-p512-r1"@.len() == 10);
    assert("curve25519"@.len() == 10);
    assert("curve448"@.len() == 8);
    assert("nist-p192"@[6] != "nist-p224"@[6]);
    assert("nist-p192"@[6] != "nist-p256"@[6]);
    assert("nist-p192"@[6] != "nist-p384"@[6]);
    assert("nist-p192"@[6] != "nist-p521"@[6]);
    assert("nist-p224"@[7] != "nist-p256"@[7]);
    assert("nist-p224"@[6] != "nist-p384"@[6]);
    assert("nist-p224"@[6] != "nist-p521"@[6]);
    assert("nist-p256"@[6] != "nist-p384"@[6]);
    assert("nist-p256"@[6] != "nist-p521"@[6]);
    assert("nist-p384"@[6] != "nist-p521"@[6]);
    assert("bn-p256"@[4] != "bn-p638"@[4]);
    assert("sm2-p256"@[0] != "curve448"@[0]);
    assert("bp-p256-r1"@[4] != "bp-p384-r1"@[4]);
    assert("bp-p256-r1"@[4] != "bp-p512-r1"@[4]);
    assert("bp-p256-r1"@[0] != "curve25519"@[0]);
    assert("bp-p384-r1"@[4] != "bp-p512-r1"@[4]);
    assert("bp-p384-r1"@[0] != "curve25519"@[0]);
    assert("bp-p512-r1"@[0] != "curve25519"@[0]);
    match a {
        TpmEllipticCurve::NistP192 => assert(b.spec_name() == "nist-p192"@ ==> b == TpmEllipticCurve::NistP192),
        TpmEllipticCurve::NistP224 => assert(b.spec_name() == "nist-p224"@ ==> b == TpmEllipticCurve::NistP224),
        TpmEllipticCurve::NistP256 => assert(b.spec_name() == "nist-p256"@ ==> b == TpmEllipticCurve::NistP256),
        TpmEllipticCurve::NistP384 => assert(b.spec_name() == "nist-p384"@ ==> b == TpmEllipticCurve::NistP384),
        TpmEllipticCurve::NistP521 => assert(b.spec_name() == "nist-p521"@ ==> b == TpmEllipticCurve::NistP521),
        TpmEllipticCurve::BnP256 => assert(b.spec_name() == "bn-p256"@ ==> b == TpmEllipticCurve::BnP256),
        TpmEllipticCurve::BnP638 => assert(b.spec_name() == "bn-p638"@ ==> b == TpmEllipticCurve::BnP638),
        TpmEllipticCurve::Sm2P256 => assert(b.spec_name() == "sm2-p256"@ ==> b == TpmEllipticCurve::Sm2P256),
        TpmEllipticCurve::BpP256R1 => assert(b.spec_name() == "bp-p256-r1"@ ==> b == TpmEllipticCurve::BpP256R1),
        TpmEllipticCurve::BpP384R1 => assert(b.spec_name() == "bp-p384-r1"@ ==> b == TpmEllipticCurve::BpP384R1),
        TpmEllipticCurve::BpP512R1 => assert(b.spec_name() == "bp-p512-r1"@ ==> b == TpmEllipticCurve::BpP512R1),
        TpmEllipticCurve::Curve25519 => assert(b.spec_name() == "curve25519"@ ==> b == TpmEllipticCurve::Curve25519),
        TpmEllipticCurve::Curve448 => assert(b.spec_name() == "curve448"@ ==> b == TpmEllipticCurve::Curve448),
    }
}

impl core::str::FromStr for TpmEllipticCurve {
    type Err = ParseError;

    fn from_str(s: &str) -> (r: Result<Self, Self::Err>)
        ensures
            match r {
                Ok(v) => s@ == v.spec_name(),
                Err(_) => forall|v: TpmEllipticCurve| s@ != v.spec_name(),
            },
    {
        TpmEllipticCurve::parse(s)
    }
}

impl TpmEllipticCurve {
    /// The curve identifier of the curve.
    pub open spec fn spec_ecc_curve(self) -> TpmEccCurve {
        match self {
            TpmEllipticCurve::NistP192 => TpmEccCurve::NistP192,
            TpmEllipticCurve::NistP224 => TpmEccCurve::NistP224,
            TpmEllipticCurve::NistP256 => TpmEccCurve::NistP256,
            TpmEllipticCurve::NistP384 => TpmEccCurve::NistP384,
            TpmEllipticCurve::NistP521 => TpmEccCurve::NistP521,
            TpmEllipticCurve::BnP256 => TpmEccCurve::BnP256,
            TpmEllipticCurve::BnP638 => TpmEccCurve::BnP638,
            TpmEllipticCurve::Sm2P256 => TpmEccCurve::Sm2P256,
            TpmEllipticCurve::BpP256R1 => TpmEccCurve::BpP256R1,
            TpmEllipticCurve::BpP384R1 => TpmEccCurve::BpP384R1,
            TpmEllipticCurve::BpP512R1 => TpmEccCurve::BpP512R1,
            TpmEllipticCurve::Curve25519 => TpmEccCurve::Curve25519,
            TpmEllipticCurve::Curve448 => TpmEccCurve::Curve448,
        }
    }

    /// Returns the curve identifier of the curve.
    pub fn to_ecc_curve(self) -> (r: TpmEccCurve)
        ensures
            r == self.spec_ecc_curve(),
    {
        match self {
            TpmEllipticCurve::NistP192 => TpmEccCurve::NistP192,
            TpmEllipticCurve::NistP224 => TpmEccCurve::NistP224,
            TpmEllipticCurve::NistP256 => TpmEccCurve::NistP256,
            TpmEllipticCurve::NistP384 => TpmEccCurve::NistP384,
            TpmEllipticCurve::NistP521 => TpmEccCurve::NistP521,
            TpmEllipticCurve::BnP256 => TpmEccCurve::BnP256,
            TpmEllipticCurve::BnP638 => TpmEccCurve::BnP638,
            TpmEllipticCurve::Sm2P256 => TpmEccCurve::Sm2P256,
            TpmEllipticCurve::BpP256R1 => TpmEccCurve::BpP256R1,
            TpmEllipticCurve::BpP384R1 => TpmEccCurve::BpP384R1,
            TpmEllipticCurve::BpP512R1 => TpmEccCurve::BpP512R1,
            TpmEllipticCurve::Curve25519 => TpmEccCurve::Curve25519,
            TpmEllipticCurve::Curve448 => TpmEccCurve::Curve448,
        }
    }

    /// Returns the curve of a curve identifier; `TPM_ECC_NONE` names none.
    pub fn try_from_ecc_curve(curve: TpmEccCurve) -> (r: Result<TpmEllipticCurve, TpmCryptoError>)
        ensures
            match r {
                Ok(c) => c.spec_ecc_curve() == curve,
                Err(e) => curve == TpmEccCurve::NoCurve && e == TpmCryptoError::InvalidEccCurve(curve),
            },
    {
        match curve {
            TpmEccCurve::NistP192 => Ok(TpmEllipticCurve::NistP192),
            TpmEccCurve::NistP224 => Ok(TpmEllipticCurve::NistP224),
            TpmEccCurve::NistP256 => Ok(TpmEllipticCurve::NistP256),
            TpmEccCurve::NistP384 => Ok(TpmEllipticCurve::NistP384),
            TpmEccCurve::NistP521 => Ok(TpmEllipticCurve::NistP521),
            TpmEccCurve::BnP256 => Ok(TpmEllipticCurve::BnP256),
            TpmEccCurve::BnP638 => Ok(TpmEllipticCurve::BnP638),
            TpmEccCurve::Sm2P256 => Ok(TpmEllipticCurve::Sm2P256),
            TpmEccCurve::BpP256R1 => Ok(TpmEllipticCurve::BpP256R1),
            TpmEccCurve::BpP384R1 => Ok(TpmEllipticCurve::BpP384R1),
            TpmEccCurve::BpP512R1 => Ok(TpmEllipticCurve::BpP512R1),
            TpmEccCurve::Curve25519 => Ok(TpmEllipticCurve::Curve25519),
            TpmEccCurve::Curve448 => Ok(TpmEllipticCurve::Curve448),
            TpmEccCurve::NoCurve => Err(TpmCryptoError::InvalidEccCurve(curve)),
        }
    }
}

/// Different curves have different curve identifiers.
pub proof fn lemma_elliptic_curve_id_injective(a: TpmEllipticCurve, b: TpmEllipticCurve)
    ensures
        a.spec_ecc_curve() == b.spec_ecc_curve() ==> a == b,
{
}
/// An ECC curve by name, with `none` for no curve.
#[derive(Debug, Clone, Copy, PartialEq, Eq, Structural)]
pub enum Tpm2shEccCurve {
    NistP192,
    NistP224,
    NistP256,
    NistP384,
    NistP521,
    BnP256,
    BnP638,
    Sm2P256,
    BpP256R1,
    BpP384R1,
    BpP512R1,
    Curve25519,
    Curve448,
    NoCurve,
}

impl Tpm2shEccCurve {
    /// The name of the variant, as it is written on the command line.
    pub open spec fn spec_name(self) -> Seq<char> {
        match self {
            Tpm2shEccCurve::NistP192 => "nist-p192"@,
            Tpm2shEccCurve::NistP224 => "nist-p224"@,
            Tpm2shEccCurve::NistP256 => "nist-p256"@,
            Tpm2shEccCurve::NistP384 => "nist-p384"@,
            Tpm2shEccCurve::NistP521 => "nist-p521"@,
            Tpm2shEccCurve::BnP256 => "bn-p256"@,
            Tpm2shEccCurve::BnP638 => "bn-p638"@,
            Tpm2shEccCurve::Sm2P256 => "sm2-p256"@,
            Tpm2shEccCurve::BpP256R1 => "bp-p256-r1"@,
            Tpm2shEccCurve::BpP384R1 => "bp-p384-r1"@,
            Tpm2shEccCurve::BpP512R1 => "bp-p512-r1"@,
            Tpm2shEccCurve::Curve25519 => "curve25519"@,
            Tpm2shEccCurve::Curve448 => "curve448"@,
            Tpm2shEccCurve::NoCurve => "none"@,
        }
    }

    /// Returns the name of the variant.
    pub fn name(self) -> (r: &'static str)
        ensures
            r@ == self.spec_name(),
    {
        match self {
            Tpm2shEccCurve::NistP192 => "nist-p192",
            Tpm2shEccCurve::NistP224 => "nist-p224",
            Tpm2shEccCurve::NistP256 => "nist-p256",
            Tpm2shEccCurve::NistP384 => "nist-p384",
            Tpm2shEccCurve::NistP521 => "nist-p521",
            Tpm2shEccCurve::BnP256 => "bn-p256",
            Tpm2shEccCurve::BnP638 => "bn-p638",
            Tpm2shEccCurve::Sm2P256 => "sm2-p256",
            Tpm2shEccCurve::BpP256R1 => "bp-p256-r1",
            Tpm2shEccCurve::BpP384R1 => "bp-p384-r1",
            Tpm2shEccCurve::BpP512R1 => "bp-p512-r1",
            Tpm2shEccCurve::Curve25519 => "curve25519",
            Tpm2shEccCurve::Curve448 => "curve448",
            Tpm2shEccCurve::NoCurve => "none",
        }
    }

    /// Returns the name of the variant, as `Display` writes it.
    pub fn to_string(&self) -> (r: String)
        ensures
            r@ == self.spec_name(),
    {
        String::from_str(self.name())
    }

    /// Parses the name of a variant.
    pub fn parse(s: &str) -> (r: Result<Tpm2shEccCurve, ParseError>)
        ensures
            match r {
                Ok(v) => s@ == v.spec_name(),
                Err(_) => forall|v: Tpm2shEccCurve| s@ != v.spec_name(),
            },
    {
        let chars = str_chars(s);
        let n = chars.len();
        if chars_equal_str(&chars, 0, n, "nist-p192") {
            assert(chars@.subrange(0, n as int) =~= s@);
            Ok(Tpm2shEccCurve::NistP192)
        } else if chars_equal_str(&chars, 0, n, "nist-p224") {
            assert(chars@.subrange(0, n as int) =~= s@);
            Ok(Tpm2shEccCurve::NistP224)
        } else if chars_equal_str(&chars, 0, n, "nist-p256") {
            assert(chars@.subrange(0, n as int) =~= s@);
            Ok(Tpm2shEccCurve::NistP256)
        } else if chars_equal_str(&chars, 0, n, "nist-p384") {
            assert(chars@.subrange(0, n as int) =~= s@);
            Ok(Tpm2shEccCurve::NistP384)
        } else if chars_equal_str(&chars, 0, n, "nist-p521") {
            assert(chars@.subrange(0, n as int) =~= s@);
            Ok(Tpm2shEccCurve::NistP521)
        } else if chars_equal_str(&chars, 0, n, "bn-p256") {
            assert(chars@.subrange(0, n as int) =~= s@);
            Ok(Tpm2shEccCurve::BnP256)
        } else if chars_equal_str(&chars, 0, n, "bn-p638") {
            assert(chars@.subrange(0, n as int) =~= s@);
            Ok(Tpm2shEccCurve::BnP638)
        } else if chars_equal_str(&chars, 0, n, "sm2-p256") {
            assert(chars@.subrange(0, n as int) =~= s@);
            Ok(Tpm2shEccCurve::Sm2P256)
        } else if chars_equal_str(&chars, 0, n, "bp-p256-r1") {
            assert(chars@.subrange(0, n as int) =~= s@);
            Ok(Tpm2shEccCurve::BpP256R1)
        } else if chars_equal_str(&chars, 0, n, "bp-p384-r1") {
            assert(chars@.subrange(0, n as int) =~= s@);
            Ok(Tpm2shEccCurve::BpP384R1)
        } else if chars_equal_str(&chars, 0, n, "bp-p512-r1") {
            assert(chars@.subrange(0, n as int) =~= s@);
            Ok(Tpm2shEccCurve::BpP512R1)
        } else if chars_equal_str(&chars, 0, n, "curve25519") {
            assert(chars@.subrange(0, n as int) =~= s@);
            Ok(Tpm2shEccCurve::Curve25519)
        } else if chars_equal_str(&chars, 0, n, "curve448") {
            assert(chars@.subrange(0, n as int) =~= s@);
            Ok(Tpm2shEccCurve::Curve448)
        } else if chars_equal_str(&chars, 0, n, "none") {
            assert(chars@.subrange(0, n as int) =~= s@);
            Ok(Tpm2shEccCurve::NoCurve)
        } else {
            assert(chars@.subrange(0, n as int) =~= s@);
            assert forall|v: Tpm2shEccCurve| s@ != v.spec_name() by {
                match v {
                    Tpm2shEccCurve::NistP192 => {},
                    Tpm2shEccCurve::NistP224 => {},
                    Tpm2shEccCurve::NistP256 => {},
                    Tpm2shEccCurve::NistP384 => {},
                    Tpm2shEccCurve::NistP521 => {},
                    Tpm2shEccCurve::BnP256 => {},
                    Tpm2shEccCurve::BnP638 => {},
                    Tpm2shEccCurve::Sm2P256 => {},
                    Tpm2shEccCurve::BpP256R1 => {},
                    Tpm2shEccCurve::BpP384R1 => {},
                    Tpm2shEccCurve::BpP512R1 => {},
                    Tpm2shEccCurve::Curve25519 => {},
                    Tpm2shEccCurve::Curve448 => {},
                    Tpm2shEccCurve::NoCurve => {},
                }
            }
            Err(ParseError::VariantNotFound)
        }
    }
}

/// Different variants have different names.
pub proof fn lemma_tpm2sh_ecc_curve_names_distinct(a: Tpm2shEccCurve, b: Tpm2shEccCurve)
    ensures
        a.spec_name() == b.spec_name() ==> a == b,
{
    reveal_strlit("nist-p192");
    reveal_strlit("nist-p224");
    reveal_strlit("nist-p256");
    reveal_strlit("nist-p384");
    reveal_strlit("nist-p521");
    reveal_strlit("bn-p256");
    reveal_strlit("bn-p638");
    reveal_strlit("sm2-p256");
    reveal_strlit("bp-p256-r1");
    reveal_strlit("bp-p384-r1");
    reveal_strlit("bp-p512-r1");
    reveal_strlit("curve25519");
    reveal_strlit("curve448");
    reveal_strlit("none");
    assert("nist-p192"@.len() == 9);
    assert("nist-p224"@.len() == 9);
    assert("nist-p256"@.len() == 9);
    assert("nist-p384"@.len() == 9);
    assert("nist-p521"@.len() == 9);
    assert("bn-p256"@.len() == 7);
    assert("bn-p638"@.len() == 7);
    assert("sm2-p256"@.len() == 8);
    assert("bp-p256-r1"@.len() == 10);
    assert("bp-p384-r1"@.len() == 10);
    assert("bp-p512-r1"@.len() == 10);
    assert("curve25519"@.len() == 10);
    assert("curve448"@.len() == 8);
    assert("none"@.len() == 4);
    assert("nist-p192"@[6] != "nist-p224"@[6]);
    assert("nist-p192"@[6] != "nist-p256"@[6]);
    assert("nist-p192"@[6] != "nist-p384"@[6]);
    assert("nist-p192"@[6] != "nist-p521"@[6]);
    assert("nist-p224"@[7] != "nist-p256"@[7]);
    assert("nist-p224"@[6] != "nist-p384"@[6]);
    assert("nist-p224"@[6] != "nist-p521"@[6]);
    assert("nist-p256"@[6] != "nist-p384"@[6]);
    assert("nist-p256"@[6] != "nist-p521"@[6]);
    assert("nist-p384"@[6] != "nist-p521"@[6]);
    assert("bn-p256"@[4] != "bn-p638"@[4]);
    assert("sm2-p256"@[0] != "curve448"@[0]);
    assert("bp-p256-r1"@[4] != "bp-p384-r1"@[4]);
    assert("bp-p256-r1"@[4] != "bp-p512-r1"@[4]);
    assert("bp-p256-r1"@[0] != "curve25519"@[0]);
    assert("bp-p384-r1"@[4] != "bp-p512-r1"@[4]);
    assert("bp-p384-r1"@[0] != "curve25519"@[0]);
    assert("bp-p512-r1"@[0] != "curve25519"@[0]);
    match a {
        Tpm2shEccCurve::NistP192 => assert(b.spec_name() == "nist-p192"@ ==> b == Tpm2shEccCurve::NistP192),
        Tpm2shEccCurve::NistP224 => assert(b.spec_name() == "nist-p224"@ ==> b == Tpm2shEccCurve::NistP224),
        Tpm2shEccCurve::NistP256 => assert(b.spec_name() == "nist-p256"@ ==> b == Tpm2shEccCurve::NistP256),
        Tpm2shEccCurve::NistP384 => assert(b.spec_name() == "nist-p384"@ ==> b == Tpm2shEccCurve::NistP384),
        Tpm2shEccCurve::NistP521 => assert(b.spec_name() == "nist-p521"@ ==> b == Tpm2shEccCurve::NistP521),
        Tpm2shEccCurve::BnP256 => assert(b.spec_name() == "bn-p256"@ ==> b == Tpm2shEccCurve::BnP256),
        Tpm2shEccCurve::BnP638 => assert(b.spec_name() == "bn-p638"@ ==> b == Tpm2shEccCurve::BnP638),
        Tpm2shEccCurve::Sm2P256 => assert(b.spec_name() == "sm2-p256"@ ==> b == Tpm2shEccCurve::Sm2P256),
        Tpm2shEccCurve::BpP256R1 => assert(b.spec_name() == "bp-p256-r1"@ ==> b == Tpm2shEccCurve::BpP256R1),
        Tpm2shEccCurve::BpP384R1 => assert(b.spec_name() == "bp-p384-r1"@ ==> b == Tpm2shEccCurve::BpP384R1),
        Tpm2shEccCurve::BpP512R1 => assert(b.spec_name() == "bp-p512-r1"@ ==> b == Tpm2shEccCurve::BpP512R1),
        Tpm2shEccCurve::Curve25519 => assert(b.spec_name() == "curve25519"@ ==> b == Tpm2shEccCurve::Curve25519),
        Tpm2shEccCurve::Curve448 => assert(b.spec_name() == "curve448"@ ==> b == Tpm2shEccCurve::Curve448),
        Tpm2shEccCurve::NoCurve => assert(b.spec_name() == "none"@ ==> b == Tpm2shEccCurve::NoCurve),
    }
}

impl core::str::FromStr for Tpm2shEccCurve {
    type Err = ParseError;

    fn from_str(s: &str) -> (r: Result<Self, Self::Err>)
        ensures
            match r {
                Ok(v) => s@ == v.spec_name(),
                Err(_) => forall|v: Tpm2shEccCurve| s@ != v.spec_name(),
            },
    {
        Tpm2shEccCurve::parse(s)
    }
}

impl Tpm2shEccCurve {
    /// The curve identifier of the curve.
    pub open spec fn spec_ecc_curve(self) -> TpmEccCurve {
        match self {
            Tpm2shEccCurve::NistP192 => TpmEccCurve::NistP192,
            Tpm2shEccCurve::NistP224 => TpmEccCurve::NistP224,
            Tpm2shEccCurve::NistP256 => TpmEccCurve::NistP256,
            Tpm2shEccCurve::NistP384 => TpmEccCurve::NistP384,
            Tpm2shEccCurve::NistP521 => TpmEccCurve::NistP521,
            Tpm2shEccCurve::BnP256 => TpmEccCurve::BnP256,
            Tpm2shEccCurve::BnP638 => TpmEccCurve::BnP638,
            Tpm2shEccCurve::Sm2P256 => TpmEccCurve::Sm2P256,
            Tpm2shEccCurve::BpP256R1 => TpmEccCurve::BpP256R1,
            Tpm2shEccCurve::BpP384R1 => TpmEccCurve::BpP384R1,
            Tpm2shEccCurve::BpP512R1 => TpmEccCurve::BpP512R1,
            Tpm2shEccCurve::Curve25519 => TpmEccCurve::Curve25519,
            Tpm2shEccCurve::Curve448 => TpmEccCurve::Curve448,
            Tpm2shEccCurve::NoCurve => TpmEccCurve::NoCurve,
        }
    }

    /// Returns the curve identifier of the curve.
    pub fn to_ecc_curve(self) -> (r: TpmEccCurve)
        ensures
            r == self.spec_ecc_curve(),
    {
        match self {
            Tpm2shEccCurve::NistP192 => TpmEccCurve::NistP192,
            Tpm2shEccCurve::NistP224 => TpmEccCurve::NistP224,
            Tpm2shEccCurve::NistP256 => TpmEccCurve::NistP256,
            Tpm2shEccCurve::NistP384 => TpmEccCurve::NistP384,
            Tpm2shEccCurve::NistP521 => TpmEccCurve::NistP521,
            Tpm2shEccCurve::BnP256 => TpmEccCurve::BnP256,
            Tpm2shEccCurve::BnP638 => TpmEccCurve::BnP638,
            Tpm2shEccCurve::Sm2P256 => TpmEccCurve::Sm2P256,
            Tpm2shEccCurve::BpP256R1 => TpmEccCurve::BpP256R1,
            Tpm2shEccCurve::BpP384R1 => TpmEccCurve::BpP384R1,
            Tpm2shEccCurve::BpP512R1 => TpmEccCurve::BpP512R1,
            Tpm2shEccCurve::Curve25519 => TpmEccCurve::Curve25519,
            Tpm2shEccCurve::Curve448 => TpmEccCurve::Curve448,
            Tpm2shEccCurve::NoCurve => TpmEccCurve::NoCurve,
        }
    }

    /// The curve of a curve identifier.
    pub open spec fn spec_from_ecc_curve(curve: TpmEccCurve) -> Tpm2shEccCurve {
        match curve {
            TpmEccCurve::NistP192 => Tpm2shEccCurve::NistP192,
            TpmEccCurve::NistP224 => Tpm2shEccCurve::NistP224,
            TpmEccCurve::NistP256 => Tpm2shEccCurve::NistP256,
            TpmEccCurve::NistP384 => Tpm2shEccCurve::NistP384,
            TpmEccCurve::NistP521 => Tpm2shEccCurve::NistP521,
            TpmEccCurve::BnP256 => Tpm2shEccCurve::BnP256,
            TpmEccCurve::BnP638 => Tpm2shEccCurve::BnP638,
            TpmEccCurve::Sm2P256 => Tpm2shEccCurve::Sm2P256,
            TpmEccCurve::BpP256R1 => Tpm2shEccCurve::BpP256R1,
            TpmEccCurve::BpP384R1 => Tpm2shEccCurve::BpP384R1,
            TpmEccCurve::BpP512R1 => Tpm2shEccCurve::BpP512R1,
            TpmEccCurve::Curve25519 => Tpm2shEccCurve::Curve25519,
            TpmEccCurve::Curve448 => Tpm2shEccCurve::Curve448,
            TpmEccCurve::NoCurve => Tpm2shEccCurve::NoCurve,
        }
    }

    /// Returns the curve of a curve identifier.
    pub fn from_ecc_curve(curve: TpmEccCurve) -> (r: Tpm2shEccCurve)
        ensures
            r == Tpm2shEccCurve::spec_from_ecc_curve(curve),
            r.spec_ecc_curve() == curve,
    {
        match curve {
            TpmEccCurve::NistP192 => Tpm2shEccCurve::NistP192,
            TpmEccCurve::NistP224 => Tpm2shEccCurve::NistP224,
            TpmEccCurve::NistP256 => Tpm2shEccCurve::NistP256,
            TpmEccCurve::NistP384 => Tpm2shEccCurve::NistP384,
            TpmEccCurve::NistP521 => Tpm2shEccCurve::NistP521,
            TpmEccCurve::BnP256 => Tpm2shEccCurve::BnP256,
            TpmEccCurve::BnP638 => Tpm2shEccCurve::BnP638,
            TpmEccCurve::Sm2P256 => Tpm2shEccCurve::Sm2P256,
            TpmEccCurve::BpP256R1 => Tpm2shEccCurve::BpP256R1,
            TpmEccCurve::BpP384R1 => Tpm2shEccCurve::BpP384R1,
            TpmEccCurve::BpP512R1 => Tpm2shEccCurve::BpP512R1,
            TpmEccCurve::Curve25519 => Tpm2shEccCurve::Curve25519,
            TpmEccCurve::Curve448 => Tpm2shEccCurve::Curve448,
            TpmEccCurve::NoCurve => Tpm2shEccCurve::NoCurve,
        }
    }
}

/// Different curves have different curve identifiers.
pub proof fn lemma_tpm2sh_curve_id_injective(a: Tpm2shEccCurve, b: Tpm2shEccCurve)
    ensures
        a.spec_ecc_curve() == b.spec_ecc_curve() ==> a == b,
{
}

/// Each curve's command-line name goes with the TPM curve identifier of the
/// same curve, as TPM 2.0 Part 2 numbers them (`TPM_ECC_CURVE`): `nist-p192`
/// is 0x0001, `nist-p224` 0x0002, `nist-p256` 0x0003, `nist-p384` 0x0004,
/// `nist-p521` 0x0005, `bn-p256` 0x0010, `bn-p638` 0x0011, `sm2-p256`
/// 0x0020, `bp-p256-r1` 0x0030, `bp-p384-r1` 0x0031, `bp-p512-r1` 0x0032,
/// `curve25519` 0x0040 and `curve448` 0x0041, both ways, for the curves of
/// key names and for the curves of keys held outside the TPM; `none` is
/// 0x0000.
pub proof fn lemma_curve_names_and_identifiers()
    ensures
        Tpm2shEccCurve::NistP192.spec_name() == "nist-p192"@,
        Tpm2shEccCurve::NistP192.spec_ecc_curve().spec_value() == 0x0001,
        Tpm2shEccCurve::spec_from_ecc_curve(TpmEccCurve::NistP192) == Tpm2shEccCurve::NistP192,
        TpmEccCurve::NistP192.spec_value() == 0x0001,
        TpmEllipticCurve::NistP192.spec_name() == "nist-p192"@,
        TpmEllipticCurve::NistP192.spec_ecc_curve().spec_value() == 0x0001,
        Tpm2shEccCurve::NistP224.spec_name() == "nist-p224"@,
        Tpm2shEccCurve::NistP224.spec_ecc_curve().spec_value() == 0x0002,
        Tpm2shEccCurve::spec_from_ecc_curve(TpmEccCurve::NistP224) == Tpm2shEccCurve::NistP224,
        TpmEccCurve::NistP224.spec_value() == 0x0002,
        TpmEllipticCurve::NistP224.spec_name() == "nist-p224"@,
        TpmEllipticCurve::NistP224.spec_ecc_curve().spec_value() == 0x0002,
        Tpm2shEccCurve::NistP256.spec_name() == "nist-p256"@,
        Tpm2shEccCurve::NistP256.spec_ecc_curve().spec_value() == 0x0003,
        Tpm2shEccCurve::spec_from_ecc_curve(TpmEccCurve::NistP256) == Tpm2shEccCurve::NistP256,
        TpmEccCurve::NistP256.spec_value() == 0x0003,
        TpmEllipticCurve::NistP256.spec_name() == "nist-p256"@,
        TpmEllipticCurve::NistP256.spec_ecc_curve().spec_value() == 0x0003,
        Tpm2shEccCurve::NistP384.spec_name() == "nist-p384"@,
        Tpm2shEccCurve::NistP384.spec_ecc_curve().spec_value() == 0x0004,
        Tpm2shEccCurve::spec_from_ecc_curve(TpmEccCurve::NistP384) == Tpm2shEccCurve::NistP384,
        TpmEccCurve::NistP384.spec_value() == 0x0004,
        TpmEllipticCurve::NistP384.spec_name() == "nist-p384"@,
        TpmEllipticCurve::NistP384.spec_ecc_curve().spec_value() == 0x0004,
        Tpm2shEccCurve::NistP521.spec_name() == "nist-p521"@,
        Tpm2shEccCurve::NistP521.spec_ecc_curve().spec_value() == 0x0005,
        Tpm2shEccCurve::spec_from_ecc_curve(TpmEccCurve::NistP521) == Tpm2shEccCurve::NistP521,
        TpmEccCurve::NistP521.spec_value() == 0x0005,
        TpmEllipticCurve::NistP521.spec_name() == "nist-p521"@,
        TpmEllipticCurve::NistP521.spec_ecc_curve().spec_value() == 0x0005,
        Tpm2shEccCurve::BnP256.spec_name() == "bn-p256"@,
        Tpm2shEccCurve::BnP256.spec_ecc_curve().spec_value() == 0x0010,
        Tpm2shEccCurve::spec_from_ecc_curve(TpmEccCurve::BnP256) == Tpm2shEccCurve::BnP256,
        TpmEccCurve::BnP256.spec_value() == 0x0010,
        TpmEllipticCurve::BnP256.spec_name() == "bn-p256"@,
        TpmEllipticCurve::BnP256.spec_ecc_curve().spec_value() == 0x0010,
        Tpm2shEccCurve::BnP638.spec_name() == "bn-p638"@,
        Tpm2shEccCurve::BnP638.spec_ecc_curve().spec_value() == 0x0011,
        Tpm2shEccCurve::spec_from_ecc_curve(TpmEccCurve::BnP638) == Tpm2shEccCurve::BnP638,
        TpmEccCurve::BnP638.spec_value() == 0x0011,
        TpmEllipticCurve::BnP638.spec_name() == "bn-p638"@,
        TpmEllipticCurve::BnP638.spec_ecc_curve().spec_value() == 0x0011,
        Tpm2shEccCurve::Sm2P256.spec_name() == "sm2-p256"@,
        Tpm2shEccCurve::Sm2P256.spec_ecc_curve().spec_value() == 0x0020,
        Tpm2shEccCurve::spec_from_ecc_curve(TpmEccCurve::Sm2P256) == Tpm2shEccCurve::Sm2P256,
        TpmEccCurve::Sm2P256.spec_value() == 0x0020,
        TpmEllipticCurve::Sm2P256.spec_name() == "sm2-p256"@,
        TpmEllipticCurve::Sm2P256.spec_ecc_curve().spec_value() == 0x0020,
        Tpm2shEccCurve::BpP256R1.spec_name() == "bp-p256-r1"@,
        Tpm2shEccCurve::BpP256R1.spec_ecc_curve().spec_value() == 0x0030,
        Tpm2shEccCurve::spec_from_ecc_curve(TpmEccCurve::BpP256R1) == Tpm2shEccCurve::BpP256R1,
        TpmEccCurve::BpP256R1.spec_value() == 0x0030,
        TpmEllipticCurve::BpP256R1.spec_name() == "bp-p256-r1"@,
        TpmEllipticCurve::BpP256R1.spec_ecc_curve().spec_value() == 0x0030,
        Tpm2shEccCurve::BpP384R1.spec_name() == "bp-p384-r1"@,
        Tpm2shEccCurve::BpP384R1.spec_ecc_curve().spec_value() == 0x0031,
        Tpm2shEccCurve::spec_from_ecc_curve(TpmEccCurve::BpP384R1) == Tpm2shEccCurve::BpP384R1,
        TpmEccCurve::BpP384R1.spec_value() == 0x0031,
        TpmEllipticCurve::BpP384R1.spec_name() == "bp-p384-r1"@,
        TpmEllipticCurve::BpP384R1.spec_ecc_curve().spec_value() == 0x0031,
        Tpm2shEccCurve::BpP512R1.spec_name() == "bp-p512-r1"@,
        Tpm2shEccCurve::BpP512R1.spec_ecc_curve().spec_value() == 0x0032,
        Tpm2shEccCurve::spec_from_ecc_curve(TpmEccCurve::BpP512R1) == Tpm2shEccCurve::BpP512R1,
        TpmEccCurve::BpP512R1.spec_value() == 0x0032,
        TpmEllipticCurve::BpP512R1.spec_name() == "bp-p512-r1"@,
        TpmEllipticCurve::BpP512R1.spec_ecc_curve().spec_value() == 0x0032,
        Tpm2shEccCurve::Curve25519.spec_name() == "curve25519"@,
        Tpm2shEccCurve::Curve25519.spec_ecc_curve().spec_value() == 0x0040,
        Tpm2shEccCurve::spec_from_ecc_curve(TpmEccCurve::Curve25519) == Tpm2shEccCurve::Curve25519,
        TpmEccCurve::Curve25519.spec_value() == 0x0040,
        TpmEllipticCurve::Curve25519.spec_name() == "curve25519"@,
        TpmEllipticCurve::Curve25519.spec_ecc_curve().spec_value() == 0x0040,
        Tpm2shEccCurve::Curve448.spec_name() == "curve448"@,
        Tpm2shEccCurve::Curve448.spec_ecc_curve().spec_value() == 0x0041,
        Tpm2shEccCurve::spec_from_ecc_curve(TpmEccCurve::Curve448) == Tpm2shEccCurve::Curve448,
        TpmEccCurve::Curve448.spec_value() == 0x0041,
        TpmEllipticCurve::Curve448.spec_name() == "curve448"@,
        TpmEllipticCurve::Curve448.spec_ecc_curve().spec_value() == 0x0041,
        Tpm2shEccCurve::NoCurve.spec_name() == "none"@,
        Tpm2shEccCurve::NoCurve.spec_ecc_curve().spec_value() == 0x0000,
        Tpm2shEccCurve::spec_from_ecc_curve(TpmEccCurve::NoCurve) == Tpm2shEccCurve::NoCurve,
{
}

} // verus!
