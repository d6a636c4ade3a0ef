//! Handles and handle patterns written as eight hexadecimal digits.

use crate::text::{
    append_str, char_is_alphanumeric, push_char, is_alphanumeric, lemma_encode_utf8_push, nibble_str,
    spec_hex_char, spec_nibble_char, spec_to_digit, str_chars, to_digit, utf8_width,
};
use crate::data::ht::{spec_tpm_ht_from_u8, TpmHt};
use vstd::prelude::*;
use vstd::string::StringExecFns;
use vstd::utf8::encode_utf8;

verus! {

/// Why a string is not a handle or a handle pattern.
#[derive(Debug, Clone, Copy, PartialEq, Eq, Structural)]
pub enum HandleError {
    /// Handle has more than one asterisk (`*`).
    HandleHasTooManyAsterisks,
    /// Handle contains a pattern (e.g., `*` or `?`).
    HandlePatternNotAllowed,
    /// Handle is less than eight characters.
    HandleTooShort,
    /// Handle is more than eight characters.
    HandleTooLong,
    /// Handle contains an invalid character.
    InvalidHandleCharacter(char),
    /// Handle type byte is not valid.
    InvalidHandleType(u8),
}

impl HandleError {
    /// The text of the error, as `Display` writes it.
    pub open spec fn spec_text(self) -> Seq<char> {
        match self {
            HandleError::HandleHasTooManyAsterisks => "handle has more than one asterisk"@,
            HandleError::HandlePatternNotAllowed => "handle pattern is not allowed"@,
            HandleError::HandleTooShort => "handle is less than eight characters"@,
            HandleError::HandleTooLong => "handle has more than eight characters"@,
            HandleError::InvalidHandleCharacter(c) => "invalid handle character: "@.push(c),
            HandleError::InvalidHandleType(b) => "invalid handle type: 0x"@ + seq![
                spec_hex_char((b / 16) as u32),
                spec_hex_char((b % 16) as u32),
            ],
        }
    }

    /// Returns the text of the error, as `Display` writes it.
    pub fn to_string(&self) -> (r: String)
        ensures
            r@ == self.spec_text(),
    {
        match self {
            HandleError::HandleHasTooManyAsterisks => String::from_str(
                "handle has more than one asterisk",
            ),
            HandleError::HandlePatternNotAllowed => String::from_str("handle pattern is not allowed"),
            HandleError::HandleTooShort => String::from_str("handle is less than eight characters"),
            HandleError::HandleTooLong => String::from_str("handle has more than eight characters"),
            HandleError::InvalidHandleCharacter(c) => {
                let mut out = String::from_str("invalid handle character: ");
                push_char(&mut out, *c);
                out
            },
            HandleError::InvalidHandleType(b) => {
                let mut out = String::from_str("invalid handle type: 0x");
                append_str(&mut out, nibble_str(Some((*b / 16) as u32)));
                append_str(&mut out, nibble_str(Some((*b % 16) as u32)));
                proof {
                    assert(out@ =~= "invalid handle type: 0x"@ + seq![
                        spec_hex_char((*b / 16) as u32),
                        spec_hex_char((*b % 16) as u32),
                    ]);
                }
                out
            },
        }
    }
}

/// A handle, or a pattern of handles: the bits under `mask` must equal
/// `value`.
#[derive(Debug, Clone, Copy, PartialEq, Eq, Hash)]
pub struct Handle {
    mask: u32,
    value: u32,
}

impl Handle {
    /// The bits that the pattern fixes.
    pub closed spec fn mask_bits(self) -> u32 {
        self.mask
    }

    /// The values of the fixed bits.
    pub closed spec fn value_bits(self) -> u32 {
        self.value
    }

    /// The text of the pattern: `*` when no bit is fixed, else eight nibbles
    /// from the most significant one down, each a lower-case hexadecimal digit
    /// when all its bits are fixed and `?` otherwise.
    pub closed spec fn spec_text(self) -> Seq<char> {
        spec_pattern_text(self.mask, self.value)
    }

    /// Creates a new handle that represents a single, specific handle value.
    pub fn new(value: u32) -> (h: Self)
        ensures
            h.mask_bits() == 0xFFFF_FFFF,
            h.value_bits() == value,
    {
        Self { mask: 0xFFFF_FFFF, value }
    }

    /// Returns the value of the handle if it represents a single handle.
    pub fn value(&self) -> (r: Option<u32>)
        ensures
            r == (if self.mask_bits() == 0xFFFF_FFFF {
                Some(self.value_bits())
            } else {
                None
            }),
    {
        if self.mask == 0xFFFF_FFFF {
            Some(self.value)
        } else {
            None
        }
    }

    /// Checks if a given handle value matches the handle's pattern.
    pub fn matches(&self, handle: u32) -> (r: bool)
        ensures
            r == ((handle & self.mask_bits()) == self.value_bits()),
    {
        (handle & self.mask) == self.value
    }
}

/// The text of the pattern that fixes the bits under `mask` to `value`: `*`
/// when no bit is fixed, else eight nibbles from the most significant one
/// down, each a lower-case hexadecimal digit when all its bits are fixed and
/// `?` otherwise.
pub open spec fn spec_pattern_text(mask: u32, value: u32) -> Seq<char> {
    if mask == 0 {
        seq!['*']
    } else {
        Seq::new(8, |i: int| spec_nibble_char(spec_nibble(mask, value, 7 - i)))
    }
}

/// The text of a handle is the text of its fixed bits.
pub proof fn lemma_handle_text(h: Handle)
    ensures
        h.spec_text() == spec_pattern_text(h.mask_bits(), h.value_bits()),
{
}

/// The nibble `n` of a pattern: its digit when all four bits are fixed.
pub open spec fn spec_nibble(mask: u32, value: u32, n: int) -> Option<u32> {
    let shift = (n * 4) as u32;
    if (mask >> shift) & 0xF == 0xF {
        Some((value >> shift) & 0xF)
    } else {
        None
    }
}

/// The number of asterisks in `s`.
pub open spec fn spec_star_count(s: Seq<char>) -> nat
    decreases s.len(),
{
    if s.len() == 0 {
        0
    } else {
        spec_star_count(s.drop_last()) + if s.last() == '*' {
            1nat
        } else {
            0nat
        }
    }
}

/// Reads the characters of `s` from the front into `(next nibble, mask,
/// value)`: a hexadecimal digit fixes the next nibble, counting down from the
/// most significant one; `?` leaves it open; `*` skips `padding` nibbles.
/// The first other character is the error.
pub open spec fn spec_scan(s: Seq<char>, padding: int) -> Result<(int, u32, u32), char>
    decreases s.len(),
{
    if s.len() == 0 {
        Ok((7, 0, 0))
    } else {
        match spec_scan(s.drop_last(), padding) {
            Err(c) => Err(c),
            Ok((idx, mask, value)) => {
                let c = s.last();
                let shift = (idx * 4) as u32;
                if c == '*' {
                    Ok((idx - padding, mask, value))
                } else {
                    match spec_to_digit(c, 16) {
                        Some(v) => Ok((idx - 1, mask | (0xFu32 << shift), value | (v << shift))),
                        None => if c == '?' {
                            Ok((idx - 1, mask, value))
                        } else {
                            Err(c)
                        },
                    }
                }
            },
        }
    }
}

/// The handle or pattern that `s` spells, or why it spells none.
///
/// `*` alone matches every handle. Otherwise `s` holds at most one `*`;
/// without one it is exactly eight bytes long, with one it has at most eight
/// bytes besides the `*`, which stands for as many open nibbles as make eight.
/// Hexadecimal digits fix their nibble and `?` leaves it open; any other
/// character is refused, and named in the error when it is alphanumeric.
pub open spec fn spec_parse_handle_bits(s: Seq<char>) -> Result<(u32, u32), HandleError> {
    if s == seq!['*'] {
        Ok((0u32, 0u32))
    } else {
        let stars = spec_star_count(s);
        let explicit = encode_utf8(s).len() - stars;
        if stars > 1 {
            Err(HandleError::HandleHasTooManyAsterisks)
        } else if stars == 0 && explicit < 8 {
            Err(HandleError::HandleTooShort)
        } else if explicit > 8 {
            Err(HandleError::HandleTooLong)
        } else {
            match spec_scan(s, 8 - explicit) {
                Err(c) => Err(
                    HandleError::InvalidHandleCharacter(
                        if char_is_alphanumeric(c) {
                            c
                        } else {
                            '?'
                        },
                    ),
                ),
                Ok((_, mask, value)) => Ok((mask, value)),
            }
        }
    }
}

/// The handle or pattern that `s` spells, or why it spells none: the one
/// whose fixed bits `spec_parse_handle_bits` gives.
pub closed spec fn spec_parse_handle(s: Seq<char>) -> Result<Handle, HandleError> {
    match spec_parse_handle_bits(s) {
        Ok((mask, value)) => Ok(Handle { mask, value }),
        Err(e) => Err(e),
    }
}

/// What `spec_parse_handle` gives, in terms of the fixed bits of the handle.
pub proof fn lemma_parse_handle_bits(s: Seq<char>)
    ensures
        match spec_parse_handle_bits(s) {
            Ok((mask, value)) => spec_parse_handle(s) matches Ok(h) && h.mask_bits() == mask
                && h.value_bits() == value,
            Err(e) => spec_parse_handle(s) == Err::<Handle, HandleError>(e),
        },
{
}

/// Asterisks of a concatenation add up.
proof fn lemma_star_count_add(a: Seq<char>, b: Seq<char>)
    ensures
        spec_star_count(a + b) == spec_star_count(a) + spec_star_count(b),
        spec_star_count(b) <= b.len(),
    decreases b.len(),
{
    if b.len() > 0 {
        lemma_star_count_add(a, b.drop_last());
        assert((a + b).drop_last() =~= a + b.drop_last());
    } else {
        assert(a + b =~= a);
    }
}

/// A lone character is one asterisk or none.
proof fn lemma_star_count_one(c: char)
    ensures
        spec_star_count(seq![c]) == if c == '*' {
            1nat
        } else {
            0nat
        },
{
    assert(seq![c].drop_last() =~= Seq::<char>::empty());
    assert(spec_star_count(Seq::<char>::empty()) == 0);
    assert(seq![c].last() == c);
}

/// A scanning error in the first `k` characters is the error of all of them.
proof fn lemma_scan_error_sticks(s: Seq<char>, padding: int, k: int)
    requires
        0 <= k <= s.len(),
        spec_scan(s.subrange(0, k), padding) is Err,
    ensures
        spec_scan(s, padding) == spec_scan(s.subrange(0, k), padding),
    decreases s.len() - k,
{
    if k < s.len() {
        assert(s.subrange(0, k + 1).drop_last() =~= s.subrange(0, k));
        lemma_scan_error_sticks(s, padding, k + 1);
    } else {
        assert(s.subrange(0, k) =~= s);
    }
}

impl Handle {
    /// Parses a handle or a handle pattern.
    #[verifier::spinoff_prover]
    pub fn parse(value_str: &str) -> (r: Result<Handle, HandleError>)
        ensures
            r == spec_parse_handle(value_str@),
    {
        let chars = str_chars(value_str);
        let ghost s = chars@;
        if chars.len() == 1 && chars[0] == '*' {
            assert(s =~= seq!['*']);
            return Ok(Self { mask: 0, value: 0 });
        }
        assert(s != seq!['*']) by {
            if s == seq!['*'] {
                assert(s.len() == 1 && s[0] == '*');
            }
        }
        // Count the asterisks and the bytes, the bytes up to a cap that
        // already decides the length checks.
        let mut stars: usize = 0;
        let mut bytes: usize = 0;
        let mut i: usize = 0;
        while i < chars.len()
            invariant
                i <= s.len(),
                s == chars@,
                stars == spec_star_count(s.take(i as int)),
                stars <= i,
                bytes == if encode_utf8(s.take(i as int)).len() < 32 {
                    encode_utf8(s.take(i as int)).len()
                } else {
                    32
                },
            decreases s.len() - i,
        {
            let c = chars[i];
            assert(s.take(i + 1) =~= s.take(i as int).push(c));
            assert(s.take(i as int) + seq![c] =~= s.take(i as int).push(c));
            proof {
                lemma_encode_utf8_push(s.take(i as int), c);
                lemma_star_count_add(s.take(i as int), seq![c]);
                lemma_star_count_one(c);
            }
            if c == '*' {
                stars = stars + 1;
            }
            let w = utf8_width(c);
            if bytes + w < 32 {
                bytes = bytes + w;
            } else {
                bytes = 32;
            }
            i = i + 1;
        }
        assert(s.take(i as int) =~= s);
        proof {
            if s.len() > 0 {
                lemma_encode_utf8_push(s.drop_last(), s.last());
                assert(s.drop_last().push(s.last()) =~= s);
            }
            lemma_star_count_add(Seq::<char>::empty(), s);
            assert(Seq::<char>::empty() + s =~= s);
        }
        if stars > 1 {
            return Err(HandleError::HandleHasTooManyAsterisks);
        }
        let explicit = bytes - stars;
        if stars == 0 {
            if explicit < 8 {
                return Err(HandleError::HandleTooShort);
            }
            if explicit > 8 {
                return Err(HandleError::HandleTooLong);
            }
        } else if explicit > 8 {
            return Err(HandleError::HandleTooLong);
        }
        let padding = 8 - explicit;
        let ghost total_stars = stars as int;
        let mut mask: u32 = 0;
        let mut value: u32 = 0;
        let mut nibble_idx: i32 = 7;
        let mut j: usize = 0;
        while j < chars.len()
            invariant
                j <= s.len(),
                s == chars@,
                s == value_str@,
                s != seq!['*'],
                total_stars == spec_star_count(s),
                total_stars <= 1,
                s.len() <= encode_utf8(s).len(),
                explicit == encode_utf8(s).len() - total_stars,
                explicit <= 8,
                total_stars == 0 ==> explicit >= 8,
                padding == 8 - explicit,
                spec_scan(s.take(j as int), padding as int) == Ok::<(int, u32, u32), char>(
                    (nibble_idx as int, mask, value),
                ),
                nibble_idx == 7 - (j - spec_star_count(s.take(j as int))) - (if spec_star_count(
                    s.take(j as int),
                ) > 0 {
                    padding as int
                } else {
                    0
                }),
            decreases s.len() - j,
        {
            let c = chars[j];
            let ghost pre = s.take(j as int);
            let ghost next = s.take(j + 1);
            assert(next.drop_last() =~= pre);
            assert(next.last() == c);
            proof {
                lemma_star_count_add(pre, seq![c]);
                assert(pre.push(c) =~= pre + seq![c]);
                assert(next =~= pre.push(c));
                lemma_star_count_one(c);
                lemma_star_count_add(next, s.skip(j + 1));
                assert(next + s.skip(j + 1) =~= s);
            }
            if c == '*' {
                nibble_idx = nibble_idx - padding as i32;
            } else {
                assert(nibble_idx >= 0);
                let shift = (nibble_idx * 4) as u32;
                match to_digit(c, 16) {
                    Some(v) => {
                        mask = mask | (0xFu32 << shift);
                        value = value | (v << shift);
                    },
                    None => {
                        if c != '?' {
                            proof {
                                assert(spec_scan(next, padding as int) == Err::<(int, u32, u32), char>(c));
                                assert(s.subrange(0, j + 1) =~= next);
                                lemma_scan_error_sticks(s, padding as int, j + 1);
                                assert(s.subrange(0, s.len() as int) =~= s);
                            }
                            let shown = if is_alphanumeric(c) {
                                c
                            } else {
                                '?'
                            };
                            return Err(HandleError::InvalidHandleCharacter(shown));
                        }
                    },
                }
                nibble_idx = nibble_idx - 1;
            }
            j = j + 1;
        }
        assert(s.take(j as int) =~= s);
        Ok(Self { mask, value })
    }

    /// The text of the pattern, as `Display` writes it.
    pub fn to_string(&self) -> (r: String)
        ensures
            r@ == self.spec_text(),
    {
        let mut out = String::new();
        if self.mask == 0 {
            proof {
                reveal_strlit("*");
            }
            append_str(&mut out, "*");
            assert(out@ =~= seq!['*']);
            return out;
        }
        let mut i: u32 = 0;
        while i < 8
            invariant
                i <= 8,
                self.mask != 0,
                out@ == Seq::new(
                    i as nat,
                    |k: int| spec_nibble_char(spec_nibble(self.mask, self.value, 7 - k)),
                ),
            decreases 8 - i,
        {
            let shift = (7 - i) * 4;
            let nibble = if (self.mask >> shift) & 0xF == 0xF {
                Some((self.value >> shift) & 0xF)
            } else {
                None
            };
            let v = self.value;
            assert(nibble matches Some(d) ==> d < 16) by {
                assert((v >> shift) & 0xF < 16) by (bit_vector);
            }
            assert(((7 - i) as int * 4) as u32 == shift);
            append_str(&mut out, nibble_str(nibble));
            assert(out@ =~= Seq::new(
                (i + 1) as nat,
                |k: int| spec_nibble_char(spec_nibble(self.mask, self.value, 7 - k)),
            ));
            i = i + 1;
        }
        out
    }
}

impl TpmHt {
    /// The handle type of a single handle: its most significant byte.
    pub fn try_from_handle(handle: Handle) -> (r: Result<TpmHt, HandleError>)
        ensures
            r == (if handle.mask_bits() != 0xFFFF_FFFF {
                Err(HandleError::HandlePatternNotAllowed)
            } else {
                match spec_tpm_ht_from_u8((handle.value_bits() >> 24) as u8) {
                    Some(ht) => Ok(ht),
                    None => Err(HandleError::InvalidHandleType((handle.value_bits() >> 24) as u8)),
                }
            }),
    {
        let raw_handle = match handle.value() {
            Some(v) => v,
            None => return Err(HandleError::HandlePatternNotAllowed),
        };
        let ht_byte = (raw_handle >> 24) as u8;
        match TpmHt::from_u8(ht_byte) {
            Some(ht) => Ok(ht),
            None => Err(HandleError::InvalidHandleType(ht_byte)),
        }
    }
}

/// A character of a pattern as `to_string` writes one: a lower-case
/// hexadecimal digit or `?`.
pub open spec fn is_pattern_char(c: char) -> bool {
    ('0' <= c <= '9') || ('a' <= c <= 'f') || c == '?'
}

/// Nibble `n` of `x`.
pub open spec fn spec_nib(x: u32, n: int) -> u32 {
    (x >> ((n * 4) as u32)) & 0xF
}

/// Setting an empty nibble changes that nibble and no other.
proof fn lemma_or_nibble(x: u32, a: u32, b: u32, d: u32)
    by (bit_vector)
    requires
        a % 4 == 0,
        b % 4 == 0,
        a < 32,
        b < 32,
        d < 16,
        (x >> a) & 0xF == 0,
    ensures
        ((x | (d << a)) >> b) & 0xF == if a == b {
            d
        } else {
            (x >> b) & 0xF
        },
{
}

/// Nibbles of zero are zero.
proof fn lemma_nib_zero(b: u32)
    by (bit_vector)
    ensures
        (0u32 >> b) & 0xF == 0,
{
}

/// Reading the first `i` characters of an eight-character pattern without
/// `*` fills the nibbles from the top: nibble `n` holds the character at
/// `7 - n` once it was read, and nothing before.
proof fn lemma_scan_pattern(s: Seq<char>, i: int) -> (r: (u32, u32))
    requires
        s.len() == 8,
        forall|k: int| 0 <= k < 8 ==> is_pattern_char(#[trigger] s[k]),
        0 <= i <= 8,
    ensures
        spec_scan(s.take(i), 0) == Ok::<(int, u32, u32), char>((7 - i, r.0, r.1)),
        forall|n: int|
            0 <= n < 8 ==> #[trigger] spec_nib(r.0, n) == if n >= 8 - i && s[7 - n] != '?' {
                0xFu32
            } else {
                0u32
            },
        forall|n: int|
            0 <= n < 8 ==> #[trigger] spec_nib(r.1, n) == if n >= 8 - i && s[7 - n] != '?' {
                spec_to_digit(s[7 - n], 16).unwrap()
            } else {
                0u32
            },
    decreases i,
{
    if i == 0 {
        assert(s.take(0) =~= Seq::<char>::empty());
        assert forall|n: int| 0 <= n < 8 implies #[trigger] spec_nib(0u32, n) == 0u32 by {
            lemma_nib_zero(((n * 4) as u32));
        }
        (0u32, 0u32)
    } else {
        let (m, v) = lemma_scan_pattern(s, i - 1);
        let c = s[i - 1];
        let idx = 7 - (i - 1);
        assert(s.take(i).drop_last() =~= s.take(i - 1));
        assert(s.take(i).last() == c);
        let shift = (idx * 4) as u32;
        if c == '?' {
            (m, v)
        } else {
            let d = spec_to_digit(c, 16).unwrap();
            assert(spec_nib(m, idx) == 0);
            assert(spec_nib(v, idx) == 0);
            let m2 = m | (0xFu32 << shift);
            let v2 = v | (d << shift);
            assert forall|n: int| 0 <= n < 8 implies #[trigger] spec_nib(m2, n) == if n >= 8 - i && s[7 - n] != '?' {
                0xFu32
            } else {
                0u32
            } by {
                let b = (n * 4) as u32;
                assert(b == n * 4);
                assert(shift == idx * 4);
                assert((shift == b) == (n == idx));
                lemma_or_nibble(m, shift, b, 0xF);
                assert(spec_nib(m, n) == if n >= 8 - (i - 1) && s[7 - n] != '?' { 0xFu32 } else { 0u32 });
            }
            assert forall|n: int| 0 <= n < 8 implies #[trigger] spec_nib(v2, n) == if n >= 8 - i && s[7 - n] != '?' {
                spec_to_digit(s[7 - n], 16).unwrap()
            } else {
                0u32
            } by {
                let b = (n * 4) as u32;
                assert(b == n * 4);
                assert(shift == idx * 4);
                assert((shift == b) == (n == idx));
                lemma_or_nibble(v, shift, b, d);
                assert(spec_nib(v, n) == if n >= 8 - (i - 1) && s[7 - n] != '?' {
                    spec_to_digit(s[7 - n], 16).unwrap()
                } else {
                    0u32
                });
            }
            (m2, v2)
        }
    }
}

/// An ASCII string takes one byte per character.
proof fn lemma_pattern_bytes(s: Seq<char>)
    requires
        forall|k: int| 0 <= k < s.len() ==> is_pattern_char(#[trigger] s[k]),
    ensures
        encode_utf8(s).len() == s.len(),
        spec_star_count(s) == 0,
    decreases s.len(),
{
    if s.len() > 0 {
        let t = s.drop_last();
        assert forall|k: int| 0 <= k < t.len() implies is_pattern_char(#[trigger] t[k]) by {
            assert(t[k] == s[k]);
        }
        lemma_pattern_bytes(t);
        lemma_encode_utf8_push(t, s.last());
        assert(t.push(s.last()) =~= s);
        assert(is_pattern_char(s[s.len() - 1]));
    }
}

/// A pattern written as eight lower-case hexadecimal digits and `?`, with at
/// least one digit, parses to a pattern that `to_string` writes back as it
/// was.
pub proof fn lemma_pattern_text_roundtrip(s: Seq<char>)
    requires
        s.len() == 8,
        forall|k: int| 0 <= k < 8 ==> is_pattern_char(#[trigger] s[k]),
        exists|k: int| 0 <= k < 8 && s[k] != '?',
    ensures
        spec_parse_handle(s) matches Ok(h) && h.spec_text() == s,
{
    lemma_pattern_bytes(s);
    assert(s != seq!['*']) by {
        if s == seq!['*'] {
            assert(s.len() == 1);
        }
    }
    let (m, v) = lemma_scan_pattern(s, 8);
    assert(s.take(8) =~= s);
    let k = choose|k: int| 0 <= k < 8 && s[k] != '?';
    assert(spec_nib(m, 7 - k) == 0xF);
    assert(m != 0) by {
        if m == 0 {
            lemma_nib_zero(((7 - k) * 4) as u32);
        }
    }
    let h = Handle { mask: m, value: v };
    assert(spec_parse_handle(s) == Ok::<Handle, HandleError>(h));
    assert forall|i: int| 0 <= i < 8 implies #[trigger] h.spec_text()[i] == s[i] by {
        let n = 7 - i;
        assert(spec_nib(m, n) == if s[7 - n] != '?' { 0xFu32 } else { 0u32 });
        assert(spec_nib(v, n) == if s[7 - n] != '?' { spec_to_digit(s[7 - n], 16).unwrap() } else { 0u32 });
        assert(7 - n == i);
    }
    assert(h.spec_text() =~= s);
}

/// The pattern `*` matches every handle.
pub proof fn lemma_wildcard_matches_every_handle(handle: u32)
    ensures
        spec_parse_handle(seq!['*']) matches Ok(h) && (handle & h.mask_bits()) == h.value_bits(),
{
    assert((handle & 0u32) == 0u32) by (bit_vector);
}

/// The handle made by `new(value)` matches `value` and nothing else.
pub proof fn lemma_single_handle_matches_only_itself(value: u32, handle: u32)
    ensures
        ((handle & 0xFFFF_FFFFu32) == value) <==> handle == value,
{
    assert((handle & 0xFFFF_FFFFu32) == handle) by (bit_vector);
}

impl core::str::FromStr for Handle {
    type Err = HandleError;

    fn from_str(value_str: &str) -> (r: Result<Self, Self::Err>)
        ensures
            r == spec_parse_handle(value_str@),
    {
        Handle::parse(value_str)
    }
}

} // verus!
