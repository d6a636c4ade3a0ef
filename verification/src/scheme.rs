//! Resource identifiers: handles, sessions, secrets and paths given on the
//! command line as `scheme:value`.

use crate::data::ht::TpmHt;
use crate::hexstr::{
    hex_decode, hex_encode, lemma_hex_encode_decode, spec_hex_decode, spec_hex_encode,
};
use crate::number::{from_str_radix, lemma_hex8_reads_back, spec_from_str_radix};
use crate::text::{
    append_str, chars_equal_str, decimal_string, hex8_string, lemma_ascii_utf8_len, lemma_encode_utf8_add, spec_decimal,
    spec_hex8, str_chars, utf8_offset,
};
use vstd::prelude::*;
use vstd::slice::slice_subrange;
use vstd::string::StringExecFns;
use vstd::utf8::encode_utf8;

verus! {

/// Why a string is not a resource identifier, or a resource identifier is
/// not of the asked kind.
#[derive(Debug, Clone, PartialEq, Eq)]
pub enum SchemeError {
    InvalidScheme(String),
    UnsupportedScheme(String),
    InvalidHandleFormat(String),
    InvalidHexFormat(String),
}

/// A type-safe representation of a resource identifier.
#[derive(Debug, Clone, PartialEq, Eq)]
pub enum Scheme {
    Password(Vec<u8>),
    Path(String),
    Policy(Vec<u8>),
    Session(u32),
    Tpm(u32),
    Transient(u32),
}

/// A resource identifier as plain values.
pub enum SchemeView {
    Password(Seq<u8>),
    Path(Seq<char>),
    Policy(Seq<u8>),
    Session(u32),
    Tpm(u32),
    Transient(u32),
}

/// A scheme error as plain values.
pub enum SchemeErrorView {
    InvalidScheme(Seq<char>),
    UnsupportedScheme(Seq<char>),
    InvalidHandleFormat(Seq<char>),
    InvalidHexFormat(Seq<char>),
}

impl View for Scheme {
    type V = SchemeView;

    open spec fn view(&self) -> SchemeView {
        match self {
            Scheme::Password(b) => SchemeView::Password(b@),
            Scheme::Path(p) => SchemeView::Path(p@),
            Scheme::Policy(b) => SchemeView::Policy(b@),
            Scheme::Session(h) => SchemeView::Session(*h),
            Scheme::Tpm(h) => SchemeView::Tpm(*h),
            Scheme::Transient(h) => SchemeView::Transient(*h),
        }
    }
}

impl View for SchemeError {
    type V = SchemeErrorView;

    open spec fn view(&self) -> SchemeErrorView {
        match self {
            SchemeError::InvalidScheme(s) => SchemeErrorView::InvalidScheme(s@),
            SchemeError::UnsupportedScheme(s) => SchemeErrorView::UnsupportedScheme(s@),
            SchemeError::InvalidHandleFormat(s) => SchemeErrorView::InvalidHandleFormat(s@),
            SchemeError::InvalidHexFormat(s) => SchemeErrorView::InvalidHexFormat(s@),
        }
    }
}

/// The index of the first `:` in `s`.
pub open spec fn spec_first_colon(s: Seq<char>) -> Option<nat>
    decreases s.len(),
{
    if s.len() == 0 {
        None
    } else if s[0] == ':' {
        Some(0)
    } else {
        match spec_first_colon(s.drop_first()) {
            None => None,
            Some(k) => Some(k + 1),
        }
    }
}

/// The handle of a `tpm:` or `vtpm:` value, or the error that reading it as
/// hexadecimal gives.
pub open spec fn spec_scheme_handle(value: Seq<char>) -> Result<u32, SchemeErrorView> {
    match spec_from_str_radix(value, 16) {
        Ok(h) => Ok(h),
        Err(e) => Err(SchemeErrorView::InvalidHandleFormat(e.spec_text())),
    }
}

/// The bytes of a `password:` or `policy:` value, or the error that reading
/// its UTF-8 bytes as hexadecimal gives.
pub open spec fn spec_scheme_bytes(value: Seq<char>) -> Result<Seq<u8>, SchemeErrorView> {
    match spec_hex_decode(encode_utf8(value)) {
        Ok(b) => Ok(b),
        Err(e) => Err(SchemeErrorView::InvalidHexFormat(e.spec_text())),
    }
}

/// The resource identifier that `s` spells.
///
/// Without a `:`, when it starts with `/`, or when the part before the first
/// `:` is one byte long (a drive letter), `s` is a path. Otherwise the part
/// before the first `:` names the scheme: `tpm` takes a hexadecimal handle,
/// `password` and `policy` hexadecimal bytes, and `vtpm` a hexadecimal handle
/// of a policy session or of a transient object. Any other scheme, or a
/// `vtpm` handle of another type, is unsupported.
pub open spec fn spec_parse_scheme(s: Seq<char>) -> Result<SchemeView, SchemeErrorView> {
    match spec_first_colon(s) {
        None => Ok(SchemeView::Path(s)),
        Some(p) => {
            let scheme = s.take(p as int);
            let value = s.skip(p as int + 1);
            if s[0] == '/' || encode_utf8(scheme).len() == 1 {
                Ok(SchemeView::Path(s))
            } else if scheme == "tpm"@ {
                match spec_scheme_handle(value) {
                    Ok(h) => Ok(SchemeView::Tpm(h)),
                    Err(e) => Err(e),
                }
            } else if scheme == "password"@ {
                match spec_scheme_bytes(value) {
                    Ok(b) => Ok(SchemeView::Password(b)),
                    Err(e) => Err(e),
                }
            } else if scheme == "policy"@ {
                match spec_scheme_bytes(value) {
                    Ok(b) => Ok(SchemeView::Policy(b)),
                    Err(e) => Err(e),
                }
            } else if scheme == "vtpm"@ {
                match spec_scheme_handle(value) {
                    Err(e) => Err(e),
                    Ok(h) => if (h >> 24) as u8 == TpmHt::PolicySession.spec_value() {
                        Ok(SchemeView::Session(h))
                    } else if (h >> 24) as u8 == TpmHt::Transient.spec_value() {
                        Ok(SchemeView::Transient(h))
                    } else {
                        Err(SchemeErrorView::UnsupportedScheme(s))
                    },
                }
            } else {
                Err(SchemeErrorView::UnsupportedScheme(s))
            }
        },
    }
}

/// How a resource identifier is written: handles of `tpm:` and of sessions
/// as eight hexadecimal digits, transient `vtpm:` handles in decimal, bytes
/// as lower-case hexadecimal, and paths as they are.
pub open spec fn spec_scheme_text(v: SchemeView) -> Seq<char> {
    match v {
        SchemeView::Tpm(h) => "tpm:"@ + spec_hex8(h),
        SchemeView::Transient(h) => "vtpm:"@ + spec_decimal(h as nat),
        SchemeView::Path(p) => p,
        SchemeView::Session(h) => "vtpm:"@ + spec_hex8(h),
        SchemeView::Password(b) => "password:"@ + spec_hex_encode(b),
        SchemeView::Policy(b) => "policy:"@ + spec_hex_encode(b),
    }
}

/// The first `:` in `s` is at `p`.
proof fn lemma_first_colon_at(s: Seq<char>, p: int)
    requires
        0 <= p <= s.len(),
        forall|j: int| 0 <= j < p ==> s[j] != ':',
    ensures
        p < s.len() && s[p] == ':' ==> spec_first_colon(s) == Some(p as nat),
        p == s.len() ==> spec_first_colon(s) is None,
    decreases p,
{
    if p > 0 {
        assert forall|j: int| 0 <= j < p - 1 implies s.drop_first()[j] != ':' by {
            assert(s.drop_first()[j] == s[j + 1]);
        }
        lemma_first_colon_at(s.drop_first(), p - 1);
    }
}

impl Scheme {
    /// Reads a hexadecimal handle from `chars[start..]`.
    fn read_handle(chars: &Vec<char>, start: usize) -> (r: Result<u32, SchemeError>)
        requires
            start <= chars@.len(),
        ensures
            match r {
                Ok(h) => spec_scheme_handle(chars@.skip(start as int)) == Ok::<u32, SchemeErrorView>(h),
                Err(e) => spec_scheme_handle(chars@.skip(start as int)) == Err::<u32, SchemeErrorView>(e@),
            },
    {
        assert(chars@.subrange(start as int, chars@.len() as int) =~= chars@.skip(start as int));
        match from_str_radix(chars, start, chars.len(), 16) {
            Ok(h) => Ok(h),
            Err(e) => Err(SchemeError::InvalidHandleFormat(e.message())),
        }
    }

    /// Reads hexadecimal bytes from the UTF-8 bytes of `s` that follow its
    /// first `start` characters.
    fn read_bytes(s: &str, chars: &Vec<char>, start: usize) -> (r: Result<Vec<u8>, SchemeError>)
        requires
            chars@ == s@,
            start <= chars@.len(),
        ensures
            match r {
                Ok(b) => spec_scheme_bytes(chars@.skip(start as int)) == Ok::<Seq<u8>, SchemeErrorView>(b@),
                Err(e) => spec_scheme_bytes(chars@.skip(start as int)) == Err::<Seq<u8>, SchemeErrorView>(e@),
            },
    {
        let bytes = s.as_bytes();
        let total = bytes.len();
        proof {
            lemma_encode_utf8_add(chars@.take(start as int), chars@.skip(start as int));
            assert(chars@.take(start as int) + chars@.skip(start as int) =~= chars@);
        }
        let off = utf8_offset(chars, start);
        let value = slice_subrange(bytes, off, total);
        assert(value@ =~= encode_utf8(chars@.skip(start as int)));
        match hex_decode(value) {
            Ok(b) => Ok(b),
            Err(e) => Err(SchemeError::InvalidHexFormat(e.message())),
        }
    }

    /// Parses a resource identifier.
    pub fn parse(s: &str) -> (r: Result<Scheme, SchemeError>)
        ensures
            match r {
                Ok(v) => spec_parse_scheme(s@) == Ok::<SchemeView, SchemeErrorView>(v@),
                Err(e) => spec_parse_scheme(s@) == Err::<SchemeView, SchemeErrorView>(e@),
            },
    {
        let chars = str_chars(s);
        let mut p: usize = 0;
        while p < chars.len() && chars[p] != ':'
            invariant
                p <= chars@.len(),
                forall|j: int| 0 <= j < p ==> chars@[j] != ':',
            decreases chars@.len() - p,
        {
            p = p + 1;
        }
        proof {
            lemma_first_colon_at(chars@, p as int);
        }
        if p == chars.len() {
            return Ok(Scheme::Path(String::from_str(s)));
        }
        let bytes_len = s.as_bytes().len();
        let scheme_len = utf8_offset(&chars, p);
        if chars[0] == '/' || scheme_len == 1 {
            return Ok(Scheme::Path(String::from_str(s)));
        }
        assert(chars@.subrange(0, p as int) =~= chars@.take(p as int));
        if chars_equal_str(&chars, 0, p, "tpm") {
            match Self::read_handle(&chars, p + 1) {
                Ok(h) => Ok(Scheme::Tpm(h)),
                Err(e) => Err(e),
            }
        } else if chars_equal_str(&chars, 0, p, "password") {
            match Self::read_bytes(s, &chars, p + 1) {
                Ok(b) => Ok(Scheme::Password(b)),
                Err(e) => Err(e),
            }
        } else if chars_equal_str(&chars, 0, p, "policy") {
            match Self::read_bytes(s, &chars, p + 1) {
                Ok(b) => Ok(Scheme::Policy(b)),
                Err(e) => Err(e),
            }
        } else if chars_equal_str(&chars, 0, p, "vtpm") {
            match Self::read_handle(&chars, p + 1) {
                Err(e) => Err(e),
                Ok(vhandle) => {
                    let mso = (vhandle >> 24) as u8;
                    if mso == TpmHt::PolicySession.value() {
                        Ok(Scheme::Session(vhandle))
                    } else if mso == TpmHt::Transient.value() {
                        Ok(Scheme::Transient(vhandle))
                    } else {
                        Err(SchemeError::UnsupportedScheme(String::from_str(s)))
                    }
                },
            }
        } else {
            Err(SchemeError::UnsupportedScheme(String::from_str(s)))
        }
    }

    /// Returns how the resource identifier is written.
    pub fn to_string(&self) -> (r: String)
        ensures
            r@ == spec_scheme_text(self@),
    {
        match self {
            Scheme::Tpm(handle) => {
                let mut out = String::from_str("tpm:");
                let digits = hex8_string(*handle);
                append_str(&mut out, digits.as_str());
                out
            },
            Scheme::Transient(vhandle) => {
                let mut out = String::from_str("vtpm:");
                let digits = decimal_string(*vhandle as u64);
                append_str(&mut out, digits.as_str());
                out
            },
            Scheme::Path(path) => path.clone(),
            Scheme::Session(vhandle) => {
                let mut out = String::from_str("vtpm:");
                let digits = hex8_string(*vhandle);
                append_str(&mut out, digits.as_str());
                out
            },
            Scheme::Password(bytes) => {
                let mut out = String::from_str("password:");
                let digits = hex_encode(bytes.as_slice());
                append_str(&mut out, digits.as_str());
                out
            },
            Scheme::Policy(bytes) => {
                let mut out = String::from_str("policy:");
                let digits = hex_encode(bytes.as_slice());
                append_str(&mut out, digits.as_str());
                out
            },
        }
    }

    /// Extracts the handle from a TPM or Session URI.
    pub fn to_handle(&self) -> (r: Result<u32, SchemeError>)
        ensures
            match self@ {
                SchemeView::Tpm(h) | SchemeView::Session(h) => r == Ok::<u32, SchemeError>(h),
                _ => r matches Err(e) && e@ == SchemeErrorView::UnsupportedScheme(spec_scheme_text(self@)),
            },
    {
        match self {
            Scheme::Tpm(handle) | Scheme::Session(handle) => Ok(*handle),
            _ => Err(SchemeError::UnsupportedScheme(self.to_string())),
        }
    }
}

/// The resource identifiers whose text reads back as themselves: all but
/// transient handles (written in decimal, read in hexadecimal), sessions of
/// another handle type than a policy session's, and paths with a `:`.
pub open spec fn spec_text_reads_back(v: SchemeView) -> bool {
    match v {
        SchemeView::Transient(_) => false,
        SchemeView::Session(h) => (h >> 24) as u8 == TpmHt::PolicySession.spec_value(),
        SchemeView::Path(p) => spec_first_colon(p) is None,
        _ => true,
    }
}

/// The text `name:value` splits at the `:` after `name`, when `name` has
/// none, and `name` is ASCII.
proof fn lemma_split_scheme(name: Seq<char>, value: Seq<char>)
    requires
        name.len() >= 2,
        forall|j: int| 0 <= j < name.len() ==> (#[trigger] name[j]) != ':' && (name[j] as u32) < 0x80,
    ensures
        ({
            let s = name + seq![':'] + value;
            &&& spec_first_colon(s) == Some(name.len())
            &&& s.take(name.len() as int) == name
            &&& s.skip(name.len() as int + 1) == value
            &&& s[0] == name[0]
            &&& encode_utf8(name).len() == name.len()
        }),
{
    let s = name + seq![':'] + value;
    assert forall|j: int| 0 <= j < name.len() implies s[j] != ':' by {
        assert(s[j] == name[j]);
    }
    assert(s[name.len() as int] == ':');
    lemma_first_colon_at(s, name.len() as int);
    assert(s.take(name.len() as int) =~= name);
    assert(s.skip(name.len() as int + 1) =~= value);
    lemma_ascii_utf8_len(name);
}

/// The text of a `tpm:` handle reads back.
proof fn lemma_tpm_text_reads_back(h: u32)
    ensures
        spec_parse_scheme(spec_scheme_text(SchemeView::Tpm(h))) == Ok::<SchemeView, SchemeErrorView>(
            SchemeView::Tpm(h),
        ),
{
    reveal_strlit("tpm:");
    reveal_strlit("tpm");
    assert("tpm:"@ =~= "tpm"@ + seq![':']);
    lemma_split_scheme("tpm"@, spec_hex8(h));
    lemma_hex8_reads_back(h);
}

/// The text of a policy session's handle reads back.
proof fn lemma_session_text_reads_back(h: u32)
    requires
        (h >> 24) as u8 == TpmHt::PolicySession.spec_value(),
    ensures
        spec_parse_scheme(spec_scheme_text(SchemeView::Session(h))) == Ok::<SchemeView, SchemeErrorView>(
            SchemeView::Session(h),
        ),
{
    reveal_strlit("vtpm:");
    reveal_strlit("vtpm");
    reveal_strlit("tpm");
    reveal_strlit("password");
    reveal_strlit("policy");
    assert("vtpm:"@ =~= "vtpm"@ + seq![':']);
    lemma_split_scheme("vtpm"@, spec_hex8(h));
    lemma_hex8_reads_back(h);
    assert("vtpm"@[0] != "tpm"@[0]);
    assert("vtpm"@[0] != "policy"@[0]);
}

/// The text of a password or a policy reads back.
proof fn lemma_bytes_text_reads_back(b: Seq<u8>)
    ensures
        spec_parse_scheme(spec_scheme_text(SchemeView::Password(b))) == Ok::<SchemeView, SchemeErrorView>(
            SchemeView::Password(b),
        ),
        spec_parse_scheme(spec_scheme_text(SchemeView::Policy(b))) == Ok::<SchemeView, SchemeErrorView>(
            SchemeView::Policy(b),
        ),
{
    reveal_strlit("password:");
    reveal_strlit("password");
    reveal_strlit("policy:");
    reveal_strlit("policy");
    reveal_strlit("tpm");
    assert("password:"@ =~= "password"@ + seq![':']);
    assert("policy:"@ =~= "policy"@ + seq![':']);
    lemma_split_scheme("password"@, spec_hex_encode(b));
    lemma_split_scheme("policy"@, spec_hex_encode(b));
    lemma_hex_encode_decode(b);
    assert("policy"@[1] != "password"@[1]);
}

/// Parsing the text of a resource identifier gives it back, for every one
/// whose text can read back (see `spec_text_reads_back`).
pub proof fn lemma_scheme_text_roundtrip(v: SchemeView)
    requires
        spec_text_reads_back(v),
    ensures
        spec_parse_scheme(spec_scheme_text(v)) == Ok::<SchemeView, SchemeErrorView>(v),
{
    match v {
        SchemeView::Tpm(h) => lemma_tpm_text_reads_back(h),
        SchemeView::Session(h) => lemma_session_text_reads_back(h),
        SchemeView::Password(b) => lemma_bytes_text_reads_back(b),
        SchemeView::Policy(b) => lemma_bytes_text_reads_back(b),
        SchemeView::Path(_) => {},
        SchemeView::Transient(_) => {},
    }
}

impl core::str::FromStr for Scheme {
    type Err = SchemeError;

    fn from_str(s: &str) -> (r: Result<Self, Self::Err>)
        ensures
            match r {
                Ok(v) => spec_parse_scheme(s@) == Ok::<SchemeView, SchemeErrorView>(v@),
                Err(e) => spec_parse_scheme(s@) == Err::<SchemeView, SchemeErrorView>(e@),
            },
    {
        Scheme::parse(s)
    }
}

} // verus!
