//! Hexadecimal text of byte strings, through the `hex` crate.

use crate::text::{
    append_str, char_debug, char_debug_text, decimal_string, lemma_hex_char_digit, spec_decimal,
    spec_hex_char,
};
use vstd::utf8::{encode_utf8, is_ascii_chars};
use vstd::string::StringExecFns;
use vstd::prelude::*;

verus! {

/// Why a byte string is not hexadecimal text.
#[derive(Debug, Clone, Copy, PartialEq, Eq, Structural)]
pub enum HexError {
    /// A byte that is not `0`-`9`, `a`-`f` or `A`-`F`, shown as the `char` of
    /// the same number, at its byte index.
    InvalidHexCharacter { c: char, index: usize },
    /// The text has an odd number of bytes.
    OddLength,
    /// The text does not fit the fixed size it is decoded into.
    InvalidStringLength,
}

/// The value of a hexadecimal digit byte.
pub open spec fn spec_hex_val(b: u8) -> Option<u8> {
    if 0x30 <= b <= 0x39 {
        Some((b - 0x30) as u8)
    } else if 0x61 <= b <= 0x66 {
        Some((b - 0x61 + 10) as u8)
    } else if 0x41 <= b <= 0x46 {
        Some((b - 0x41 + 10) as u8)
    } else {
        None
    }
}

/// The index of the first byte of `b` that is not a hexadecimal digit.
pub open spec fn spec_first_non_hex(b: Seq<u8>) -> Option<nat>
    decreases b.len(),
{
    if b.len() == 0 {
        None
    } else if spec_hex_val(b[0]) is None {
        Some(0)
    } else {
        match spec_first_non_hex(b.drop_first()) {
            None => None,
            Some(k) => Some(k + 1),
        }
    }
}

/// The bytes that the hexadecimal text `b` spells, two digits per byte with
/// the high nibble first, or why it spells none: an odd length first, then
/// the first byte that is not a digit.
pub open spec fn spec_hex_decode(b: Seq<u8>) -> Result<Seq<u8>, HexError> {
    if b.len() % 2 != 0 {
        Err(HexError::OddLength)
    } else {
        match spec_first_non_hex(b) {
            Some(j) => Err(HexError::InvalidHexCharacter { c: b[j as int] as char, index: j as usize }),
            None => Ok(
                Seq::new(
                    b.len() / 2,
                    |i: int|
                        (spec_hex_val(b[2 * i]).unwrap() * 16 + spec_hex_val(b[2 * i + 1]).unwrap()) as u8,
                ),
            ),
        }
    }
}

/// The lower-case hexadecimal text of `b`, two digits per byte with the high
/// nibble first.
pub open spec fn spec_hex_encode(b: Seq<u8>) -> Seq<char> {
    Seq::new(
        2 * b.len(),
        |i: int|
            spec_hex_char(
                if i % 2 == 0 {
                    (b[i / 2] / 16) as u32
                } else {
                    (b[i / 2] % 16) as u32
                },
            ),
    )
}

/// Calls `hex::decode` on `data`. Claimed, as the crate's source shows it: an
/// odd number of bytes is `OddLength`; otherwise the bytes are read in pairs
/// from the front, and the first byte that is not a hexadecimal digit (either
/// case) is `InvalidHexCharacter` with that byte as a `char` and its index;
/// otherwise each pair gives one byte, high nibble first. The crate's error
/// is turned into `HexError` variant by variant.
#[verifier::external_body]
pub(crate) fn hex_decode(data: &[u8]) -> (r: Result<Vec<u8>, HexError>)
    ensures
        match r {
            Ok(v) => spec_hex_decode(data@) == Ok::<Seq<u8>, HexError>(v@),
            Err(e) => spec_hex_decode(data@) == Err::<Seq<u8>, HexError>(e),
        },
{
    match hex::decode(data) {
        Ok(v) => Ok(v),
        Err(hex::FromHexError::InvalidHexCharacter { c, index }) => Err(
            HexError::InvalidHexCharacter { c, index },
        ),
        Err(hex::FromHexError::OddLength) => Err(HexError::OddLength),
        Err(hex::FromHexError::InvalidStringLength) => Err(HexError::InvalidStringLength),
    }
}

/// Calls `hex::encode` on `data`. Claimed, as the crate documents it: the
/// lower-case hexadecimal text of the bytes, two digits per byte.
#[verifier::external_body]
pub(crate) fn hex_encode(data: &[u8]) -> (r: String)
    ensures
        r@ == spec_hex_encode(data@),
{
    hex::encode(data)
}

impl HexError {
    /// The text of the error, as the `hex` crate displays it.
    pub open spec fn spec_text(self) -> Seq<char> {
        match self {
            HexError::InvalidHexCharacter { c, index } => "Invalid character "@ + char_debug_text(c)
                + " at position "@ + spec_decimal(index as nat),
            HexError::OddLength => "Odd number of digits"@,
            HexError::InvalidStringLength => "Invalid string length"@,
        }
    }

    /// Returns the text of the error.
    pub fn message(&self) -> (r: String)
        ensures
            r@ == self.spec_text(),
    {
        match self {
            HexError::InvalidHexCharacter { c, index } => {
                let mut out = String::from_str("Invalid character ");
                let shown = char_debug(*c);
                append_str(&mut out, shown.as_str());
                append_str(&mut out, " at position ");
                let n = decimal_string(*index as u64);
                append_str(&mut out, n.as_str());
                out
            },
            HexError::OddLength => String::from_str("Odd number of digits"),
            HexError::InvalidStringLength => String::from_str("Invalid string length"),
        }
    }
}

/// The byte of a lower-case hexadecimal digit reads back as its nibble.
proof fn lemma_hex_val_of_char(d: u32)
    requires
        d < 16,
    ensures
        spec_hex_val(spec_hex_char(d) as u8) == Some(d as u8),
{
    broadcast use vstd::utf8::char_u32_cast;

    lemma_hex_char_digit(d);
    if d < 10 {
        assert((('0' as u32 + d) as char) as u32 == '0' as u32 + d);
    } else {
        assert((('a' as u32 + d - 10) as char) as u32 == 'a' as u32 + d - 10);
    }
}

/// Bytes that are all hexadecimal digits have no first non-digit.
proof fn lemma_all_hex(b: Seq<u8>)
    requires
        forall|i: int| 0 <= i < b.len() ==> spec_hex_val(#[trigger] b[i]) is Some,
    ensures
        spec_first_non_hex(b) is None,
    decreases b.len(),
{
    if b.len() > 0 {
        assert forall|i: int| 0 <= i < b.drop_first().len() implies spec_hex_val(#[trigger] b.drop_first()[i]) is Some by {
            assert(b.drop_first()[i] == b[i + 1]);
        }
        lemma_all_hex(b.drop_first());
    }
}

/// Decoding the UTF-8 bytes of the hexadecimal text of `b` gives `b` back.
pub proof fn lemma_hex_encode_decode(b: Seq<u8>)
    ensures
        spec_hex_decode(encode_utf8(spec_hex_encode(b))) == Ok::<Seq<u8>, HexError>(b),
{
    let t = spec_hex_encode(b);
    assert forall|i: int| 0 <= i < t.len() implies ('\0' <= #[trigger] t[i] <= '\u{7f}') by {
        let d = if i % 2 == 0 { (b[i / 2] / 16) as u32 } else { (b[i / 2] % 16) as u32 };
        lemma_hex_char_digit(d);
    }
    assert(is_ascii_chars(t));
    vstd::utf8::is_ascii_chars_encode_utf8(t);
    let bytes = encode_utf8(t);
    assert forall|i: int| 0 <= i < bytes.len() implies spec_hex_val(#[trigger] bytes[i]) == Some(
        if i % 2 == 0 { (b[i / 2] / 16) as u8 } else { (b[i / 2] % 16) as u8 },
    ) by {
        let d = if i % 2 == 0 { (b[i / 2] / 16) as u32 } else { (b[i / 2] % 16) as u32 };
        assert(t[i] == spec_hex_char(d));
        assert(bytes[i] == t[i] as u8);
        lemma_hex_val_of_char(d);
    }
    lemma_all_hex(bytes);
    let decoded = Seq::new(
        bytes.len() / 2,
        |i: int| (spec_hex_val(bytes[2 * i]).unwrap() * 16 + spec_hex_val(bytes[2 * i + 1]).unwrap()) as u8,
    );
    assert forall|i: int| 0 <= i < b.len() implies #[trigger] decoded[i] == b[i] by {
        assert(spec_hex_val(bytes[2 * i]) == Some((b[i] / 16) as u8));
        assert(spec_hex_val(bytes[2 * i + 1]) == Some((b[i] % 16) as u8));
    }
    assert(decoded =~= b);
}

} // verus!
