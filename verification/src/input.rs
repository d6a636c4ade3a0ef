//! What is read as input: file contents, or hexadecimal text.

use crate::hexstr::{hex_decode, spec_hex_decode};
use crate::text::{append_str, lemma_encode_utf8_add, spec_trim, str_chars, trim_bounds, utf8_offset};
use vstd::prelude::*;
use vstd::slice::slice_subrange;
use vstd::string::StringExecFns;
use vstd::utf8::encode_utf8;

verus! {

/// Why input could not be used.
#[derive(Debug, Clone, PartialEq, Eq)]
pub enum InputError {
    /// There is no data.
    UnexpectedEof,
    /// The data is not what was expected.
    InvalidInput(String),
}

/// An input error as plain values.
pub enum InputErrorView {
    UnexpectedEof,
    InvalidInput(Seq<char>),
}

impl View for InputError {
    type V = InputErrorView;

    open spec fn view(&self) -> InputErrorView {
        match self {
            InputError::UnexpectedEof => InputErrorView::UnexpectedEof,
            InputError::InvalidInput(s) => InputErrorView::InvalidInput(s@),
        }
    }
}

/// The bytes that hexadecimal input text spells: white space around it is
/// ignored, nothing else is no data, and the rest must be hexadecimal.
pub open spec fn spec_decode_hex_input(text: Seq<char>) -> Result<Seq<u8>, InputErrorView> {
    let t = spec_trim(text);
    if t.len() == 0 {
        Err(InputErrorView::UnexpectedEof)
    } else {
        match spec_hex_decode(encode_utf8(t)) {
            Ok(b) => Ok(b),
            Err(e) => Err(InputErrorView::InvalidInput("invalid hex input: "@ + e.spec_text())),
        }
    }
}

/// Decodes hexadecimal input text into bytes.
pub fn decode_hex_input(text: &str) -> (r: Result<Vec<u8>, InputError>)
    ensures
        match spec_decode_hex_input(text@) {
            Ok(b) => r matches Ok(v) && v@ == b,
            Err(e) => r matches Err(x) && x@ == e,
        },
{
    let chars = str_chars(text);
    let (start, end) = trim_bounds(&chars);
    if start == end {
        return Err(InputError::UnexpectedEof);
    }
    let bytes = text.as_bytes();
    let total = bytes.len();
    let ghost s = chars@;
    proof {
        lemma_encode_utf8_add(s.take(end as int), s.skip(end as int));
        assert(s.take(end as int) + s.skip(end as int) =~= s);
        lemma_encode_utf8_add(s.take(start as int), s.subrange(start as int, end as int));
        assert(s.take(start as int) + s.subrange(start as int, end as int) =~= s.take(end as int));
    }
    let off_start = utf8_offset(&chars, start);
    let off_end = utf8_offset(&chars, end);
    let part = slice_subrange(bytes, off_start, off_end);
    assert(part@ =~= encode_utf8(s.subrange(start as int, end as int)));
    match hex_decode(part) {
        Ok(v) => Ok(v),
        Err(e) => {
            let mut msg = String::from_str("invalid hex input: ");
            let text_of_error = e.message();
            append_str(&mut msg, text_of_error.as_str());
            Err(InputError::InvalidInput(msg))
        },
    }
}

/// Accepts the contents of an input file, which must not be empty.
pub fn check_file_input(bytes: Vec<u8>) -> (r: Result<Vec<u8>, InputError>)
    ensures
        bytes@.len() == 0 ==> r matches Err(InputError::UnexpectedEof),
        bytes@.len() > 0 ==> (r matches Ok(v) && v@ == bytes@),
{
    if bytes.len() == 0 {
        Err(InputError::UnexpectedEof)
    } else {
        Ok(bytes)
    }
}

} // verus!
