//! Unsigned numbers written in decimal or, behind `0x`, in hexadecimal.

use crate::text::{
    lemma_hex_char_digit, spec_decimal, spec_hex8, spec_hex_char, spec_to_digit, spec_trim, str_chars,
    to_digit,
    trim_bounds,
};
use vstd::prelude::*;
use vstd::string::StringExecFns;

verus! {

/// Why a string does not hold a `u32`.
#[derive(Debug, Clone, Copy, PartialEq, Eq, Structural)]
pub enum ParseIntError {
    /// There are no characters to read.
    Empty,
    /// A character is not a digit of the base, or a sign stands alone.
    InvalidDigit,
    /// The number is larger than `u32::MAX`.
    PosOverflow,
}

impl ParseIntError {
    /// The text of the error, as the standard library displays it.
    pub open spec fn spec_text(self) -> Seq<char> {
        match self {
            ParseIntError::Empty => "cannot parse integer from empty string"@,
            ParseIntError::InvalidDigit => "invalid digit found in string"@,
            ParseIntError::PosOverflow => "number too large to fit in target type"@,
        }
    }

    /// Returns the text of the error.
    pub fn message(&self) -> (r: String)
        ensures
            r@ == self.spec_text(),
    {
        match self {
            ParseIntError::Empty => String::from_str("cannot parse integer from empty string"),
            ParseIntError::InvalidDigit => String::from_str("invalid digit found in string"),
            ParseIntError::PosOverflow => String::from_str("number too large to fit in target type"),
        }
    }
}

/// The value of the digits `d` in base `radix`, read from the front: the
/// first character that is not a digit of the base, or the first digit after
/// which the value exceeds `u32::MAX`, decides the error.
pub open spec fn spec_digits_value(d: Seq<char>, radix: u32) -> Result<u32, ParseIntError>
    decreases d.len(),
{
    if d.len() == 0 {
        Ok(0)
    } else {
        match spec_digits_value(d.drop_last(), radix) {
            Err(e) => Err(e),
            Ok(acc) => match spec_to_digit(d.last(), radix) {
                None => Err(ParseIntError::InvalidDigit),
                Some(x) => if acc * radix + x > u32::MAX {
                    Err(ParseIntError::PosOverflow)
                } else {
                    Ok((acc * radix + x) as u32)
                },
            },
        }
    }
}

/// The `u32` that `s` spells in base `radix`, as `u32::from_str_radix` reads
/// it: an optional `+` and then digits only.
pub open spec fn spec_from_str_radix(s: Seq<char>, radix: u32) -> Result<u32, ParseIntError> {
    if s.len() == 0 {
        Err(ParseIntError::Empty)
    } else if s == seq!['+'] || s == seq!['-'] {
        Err(ParseIntError::InvalidDigit)
    } else if s[0] == '+' {
        spec_digits_value(s.drop_first(), radix)
    } else {
        spec_digits_value(s, radix)
    }
}

/// The `u32` that `s` spells once white space is trimmed from both ends: in
/// hexadecimal behind a `0x` or `0X` prefix, in decimal otherwise.
pub open spec fn spec_parse_u32(s: Seq<char>) -> Result<u32, ParseIntError> {
    let t = spec_trim(s);
    if t.len() >= 2 && t[0] == '0' && (t[1] == 'x' || t[1] == 'X') {
        spec_from_str_radix(t.subrange(2, t.len() as int), 16)
    } else {
        spec_from_str_radix(t, 10)
    }
}

/// Reads the characters `s[start..end]` as a `u32` in base `radix`.
pub fn from_str_radix(s: &Vec<char>, start: usize, end: usize, radix: u32) -> (r: Result<u32, ParseIntError>)
    requires
        start <= end <= s@.len(),
        2 <= radix <= 36,
    ensures
        r == spec_from_str_radix(s@.subrange(start as int, end as int), radix),
{
    let ghost t = s@.subrange(start as int, end as int);
    if start == end {
        return Err(ParseIntError::Empty);
    }
    if end - start == 1 && (s[start] == '+' || s[start] == '-') {
        proof {
            if s@[start as int] == '+' {
                assert(t =~= seq!['+']);
            } else {
                assert(t =~= seq!['-']);
            }
        }
        return Err(ParseIntError::InvalidDigit);
    }
    assert(t != seq!['+'] && t != seq!['-']) by {
        if t == seq!['+'] || t == seq!['-'] {
            assert(t.len() == 1);
        }
    }
    let first = if s[start] == '+' { start + 1 } else { start };
    let ghost d = s@.subrange(first as int, end as int);
    assert(s@[start as int] == '+' ==> d =~= t.drop_first());
    assert(s@[start as int] != '+' ==> d =~= t);
    assert(spec_from_str_radix(t, radix) == spec_digits_value(d, radix));
    let mut acc: u32 = 0;
    let mut i: usize = first;
    while i < end
        invariant
            first <= i <= end <= s@.len(),
            2 <= radix <= 36,
            d == s@.subrange(first as int, end as int),
            t == s@.subrange(start as int, end as int),
            spec_from_str_radix(t, radix) == spec_digits_value(d, radix),
            spec_digits_value(s@.subrange(first as int, i as int), radix) == Ok::<u32, ParseIntError>(acc),
        decreases end - i,
    {
        let ghost pre = s@.subrange(first as int, i as int);
        let ghost next = s@.subrange(first as int, i + 1);
        assert(next.drop_last() =~= pre);
        assert(next.last() == s@[i as int]);
        let x = match to_digit(s[i], radix) {
            Some(x) => x,
            None => {
                proof {
                    assert(d.subrange(0, (i - first) as int + 1) =~= next);
                    lemma_digits_error_sticks(d, radix, (i - first) as int + 1);
                }
                return Err(ParseIntError::InvalidDigit);
            },
        };
        assert((acc as u64) * (radix as u64) <= 0xFFFF_FFFFu64 * 36) by (nonlinear_arith)
            requires
                radix <= 36,
        ;
        let wide: u64 = (acc as u64) * (radix as u64) + (x as u64);
        if wide > u32::MAX as u64 {
            proof {
                assert(d.subrange(0, (i - first) as int + 1) =~= next);
                lemma_digits_error_sticks(d, radix, (i - first) as int + 1);
            }
            return Err(ParseIntError::PosOverflow);
        }
        acc = wide as u32;
        i = i + 1;
    }
    assert(s@.subrange(first as int, i as int) =~= d);
    Ok(acc)
}

/// An error in the first `k` digits is the error of all of them.
proof fn lemma_digits_error_sticks(d: Seq<char>, radix: u32, k: int)
    requires
        0 <= k <= d.len(),
        spec_digits_value(d.subrange(0, k), radix) is Err,
    ensures
        spec_digits_value(d, radix) == spec_digits_value(d.subrange(0, k), radix),
    decreases d.len() - k,
{
    if k < d.len() {
        let next = d.subrange(0, k + 1);
        assert(next.drop_last() =~= d.subrange(0, k));
        lemma_digits_error_sticks(d, radix, k + 1);
    } else {
        assert(d.subrange(0, k) =~= d);
    }
}

/// Parses a string as a `u32`: decimal by default, hexadecimal behind a `0x`
/// or `0X` prefix, with white space around it ignored.
pub fn parse_u32(s: &str) -> (r: Result<u32, ParseIntError>)
    ensures
        r == spec_parse_u32(s@),
{
    let chars = str_chars(s);
    let (start, end) = trim_bounds(&chars);
    let ghost t = chars@.subrange(start as int, end as int);
    if end - start >= 2 && chars[start] == '0' && (chars[start + 1] == 'x' || chars[start + 1] == 'X') {
        assert(chars@.subrange(start + 2, end as int) =~= t.subrange(2, t.len() as int));
        from_str_radix(&chars, start + 2, end, 16)
    } else {
        from_str_radix(&chars, start, end, 10)
    }
}

/// Nibbles put back together from the top give the number's high part.
proof fn lemma_nibble_step(h: u32, a: u32)
    by (bit_vector)
    requires
        a % 4 == 0,
        a <= 24,
    ensures
        ((h >> (a + 4)) * 16 + ((h >> a) & 0xF)) == (h >> a),
        (h >> (a + 4)) * 16 + ((h >> a) & 0xF) <= 0xFFFF_FFFF,
{
}

proof fn lemma_top_nibble(h: u32)
    by (bit_vector)
    ensures
        ((h >> 28) & 0xF) == (h >> 28),
{
}

/// The first `i` of the eight hexadecimal digits of `h` read as the high
/// part of `h`.
proof fn lemma_hex8_prefix_value(h: u32, i: int)
    requires
        0 <= i <= 8,
    ensures
        spec_digits_value(spec_hex8(h).take(i), 16) == Ok::<u32, ParseIntError>(
            if i == 0 {
                0u32
            } else {
                h >> (((8 - i) * 4) as u32)
            },
        ),
    decreases i,
{
    let s = spec_hex8(h);
    if i == 0 {
        assert(s.take(0) =~= Seq::<char>::empty());
    } else {
        lemma_hex8_prefix_value(h, i - 1);
        let a = ((8 - i) * 4) as u32;
        let d = (h >> a) & 0xF;
        assert(d < 16) by (bit_vector)
            requires
                d == (h >> a) & 0xF,
        ;
        assert(s.take(i).drop_last() =~= s.take(i - 1));
        assert(s.take(i).last() == s[i - 1]);
        assert(s[i - 1] == spec_hex_char(d));
        lemma_hex_char_digit(d);
        if i == 1 {
            lemma_top_nibble(h);
            assert(a == 28);
        } else {
            lemma_nibble_step(h, a);
            assert(((8 - (i - 1)) * 4) as u32 == a + 4);
        }
    }
}

/// The eight hexadecimal digits of `h` read back as `h` in base 16.
pub proof fn lemma_hex8_reads_back(h: u32)
    ensures
        spec_from_str_radix(spec_hex8(h), 16) == Ok::<u32, ParseIntError>(h),
{
    let s = spec_hex8(h);
    lemma_hex8_prefix_value(h, 8);
    assert(s.take(8) =~= s);
    assert(h >> 0u32 == h) by (bit_vector);
    let d = (h >> 28u32) & 0xF;
    assert(d < 16) by (bit_vector)
        requires
            d == (h >> 28u32) & 0xF,
    ;
    lemma_hex_char_digit(d);
    assert(s[0] == spec_hex_char(d));
    assert(s != seq!['+'] && s != seq!['-']) by {
        if s == seq!['+'] || s == seq!['-'] {
            assert(s.len() == 1);
        }
    }
}

/// A decimal digit character reads back as its value.
proof fn lemma_decimal_digit(d: u32)
    requires
        d < 10,
    ensures
        spec_to_digit(spec_hex_char(d), 10) == Some(d),
        '0' <= spec_hex_char(d) <= '9',
{
    lemma_hex_char_digit(d);
}

/// The decimal digits of `n` read back as `n`, and are all `0` to `9`.
pub proof fn lemma_decimal_reads_back(n: nat)
    requires
        n <= u32::MAX,
    ensures
        spec_digits_value(spec_decimal(n), 10) == Ok::<u32, ParseIntError>(n as u32),
        spec_from_str_radix(spec_decimal(n), 10) == Ok::<u32, ParseIntError>(n as u32),
        spec_decimal(n).len() >= 1,
        forall|i: int| 0 <= i < spec_decimal(n).len() ==> '0' <= #[trigger] spec_decimal(n)[i] <= '9',
    decreases n,
{
    let d = spec_decimal(n);
    if n < 10 {
        lemma_decimal_digit(n as u32);
        assert(d.drop_last() =~= Seq::<char>::empty());
        assert(spec_digits_value(d.drop_last(), 10) == Ok::<u32, ParseIntError>(0));
        assert(d.last() == spec_hex_char(n as u32));
    } else {
        lemma_decimal_reads_back(n / 10);
        lemma_decimal_digit((n % 10) as u32);
        assert(d.drop_last() =~= spec_decimal(n / 10));
        assert(d.last() == spec_hex_char((n % 10) as u32));
        assert((n / 10) * 10 + n % 10 == n);
        assert(forall|i: int| 0 <= i < d.len() - 1 ==> d[i] == spec_decimal(n / 10)[i]);
    }
    assert(spec_digits_value(d, 10) == Ok::<u32, ParseIntError>(n as u32));
    assert(d[0] != '+' && d[0] != '-');
    assert(d != seq!['+']);
    assert(d != seq!['-']);
}

} // verus!
