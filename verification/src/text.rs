//! Characters of strings: their order, their UTF-8 width and their classes.

use vstd::prelude::*;
use vstd::string::StringExecFns;
use vstd::utf8::{encode_scalar, encode_utf8};

verus! {

/// A name does not name any variant.
#[derive(Debug, Clone, Copy, PartialEq, Eq, Structural)]
pub enum ParseError {
    VariantNotFound,
}

impl ParseError {
    /// The text that `Display` writes.
    pub open spec fn spec_text(self) -> Seq<char> {
        "Matching variant not found"@
    }

    /// Returns the text that `Display` writes.
    pub fn to_string(&self) -> (r: String)
        ensures
            r@ == self.spec_text(),
    {
        String::from_str("Matching variant not found")
    }
}

/// The characters of `s`, in order.
pub fn str_chars(s: &str) -> (r: Vec<char>)
    ensures
        r@ == s@,
{
    broadcast use vstd::string::axiom_spec_iter;

    let mut v: Vec<char> = Vec::new();
    for c in it: s.chars()
        invariant
            v@ == it.seq().take(it.index()),
    {
        v.push(c);
    }
    assert(v@ =~= s@);
    v
}

/// The value of `c` as a digit in base `radix`: `0`-`9`, then `a`-`z` or
/// `A`-`Z` for ten and up, when below `radix`.
pub open spec fn spec_to_digit(c: char, radix: u32) -> Option<u32> {
    let v = c as u32;
    let d = if '0' as u32 <= v <= '9' as u32 {
        v - '0' as u32
    } else if 'a' as u32 <= v <= 'z' as u32 {
        v - 'a' as u32 + 10
    } else if 'A' as u32 <= v <= 'Z' as u32 {
        v - 'A' as u32 + 10
    } else {
        36
    };
    if d < radix {
        Some(d as u32)
    } else {
        None
    }
}

/// Returns the value of `c` as a digit in base `radix`.
pub fn to_digit(c: char, radix: u32) -> (r: Option<u32>)
    requires
        2 <= radix <= 36,
    ensures
        r == spec_to_digit(c, radix),
{
    let v = c as u32;
    let d: u32 = if '0' as u32 <= v && v <= '9' as u32 {
        v - '0' as u32
    } else if 'a' as u32 <= v && v <= 'z' as u32 {
        v - 'a' as u32 + 10
    } else if 'A' as u32 <= v && v <= 'Z' as u32 {
        v - 'A' as u32 + 10
    } else {
        36
    };
    if d < radix {
        Some(d)
    } else {
        None
    }
}

/// The lower-case hexadecimal digit of a nibble.
pub open spec fn spec_hex_char(d: u32) -> char {
    if d < 10 {
        ('0' as u32 + d) as char
    } else {
        ('a' as u32 + d - 10) as char
    }
}

/// Whether `c` has the Unicode `Alphanumeric` property, as `char::is_alphanumeric`
/// decides it.
pub uninterp spec fn char_is_alphanumeric(c: char) -> bool;

/// Whether `c` has the Unicode `White_Space` property, as `char::is_whitespace`
/// decides it: tab to carriage return, space, next line, no-break space,
/// ogham space mark, en quad to hair space, line and paragraph separators,
/// narrow no-break space, medium mathematical space and ideographic space.
pub open spec fn char_is_whitespace(c: char) -> bool {
    let u = c as u32;
    ||| 0x09 <= u <= 0x0D
    ||| u == 0x20
    ||| u == 0x85
    ||| u == 0xA0
    ||| u == 0x1680
    ||| 0x2000 <= u <= 0x200A
    ||| u == 0x2028
    ||| u == 0x2029
    ||| u == 0x202F
    ||| u == 0x205F
    ||| u == 0x3000
}

/// The ASCII letters and digits.
pub open spec fn is_ascii_alphanumeric(c: char) -> bool {
    ||| '0' <= c <= '9'
    ||| 'a' <= c <= 'z'
    ||| 'A' <= c <= 'Z'
}

/// The ASCII characters with the `White_Space` property: tab, line feed,
/// vertical tab, form feed, carriage return and space.
pub open spec fn is_ascii_white_space(c: char) -> bool {
    ||| '\t' <= c <= '\r'
    ||| c == ' '
}

/// Calls `char::is_alphanumeric`: whether `c` is alphabetic or numeric in the
/// Unicode sense. Claimed: the answer is a function of `c` alone, and on ASCII
/// it holds exactly of the letters and the digits. What it is beyond ASCII
/// follows the Unicode tables of the standard library and is left unsaid.
#[verifier::external_body]
pub(crate) fn is_alphanumeric(c: char) -> (r: bool)
    ensures
        r == char_is_alphanumeric(c),
        (c as u32) < 0x80 ==> (r <==> is_ascii_alphanumeric(c)),
{
    c.is_alphanumeric()
}

/// Whether `c` has the Unicode `White_Space` property, as
/// `char::is_whitespace` answers: the 25 code points of
/// `char_is_whitespace`; on ASCII those are tab, line feed, vertical tab,
/// form feed, carriage return and space.
pub(crate) fn is_whitespace(c: char) -> (r: bool)
    ensures
        r == char_is_whitespace(c),
        (c as u32) < 0x80 ==> (r <==> is_ascii_white_space(c)),
{
    let u = c as u32;
    proof {
        assert('\t' as u32 == 0x09);
        assert('\r' as u32 == 0x0D);
        assert(' ' as u32 == 0x20);
    }
    (0x09 <= u && u <= 0x0D) || u == 0x20 || u == 0x85 || u == 0xA0 || u == 0x1680 || (0x2000 <= u
        && u <= 0x200A) || u == 0x2028 || u == 0x2029 || u == 0x202F || u == 0x205F || u == 0x3000
}

/// The number of leading characters of `s` that are white space.
pub open spec fn spec_leading_white_space(s: Seq<char>) -> nat
    decreases s.len(),
{
    if s.len() == 0 || !char_is_whitespace(s[0]) {
        0
    } else {
        1 + spec_leading_white_space(s.drop_first())
    }
}

/// The number of trailing characters of `s` that are white space.
pub open spec fn spec_trailing_white_space(s: Seq<char>) -> nat
    decreases s.len(),
{
    if s.len() == 0 || !char_is_whitespace(s.last()) {
        0
    } else {
        1 + spec_trailing_white_space(s.drop_last())
    }
}

/// `s` without its leading and trailing white space, as `str::trim` gives it.
pub open spec fn spec_trim(s: Seq<char>) -> Seq<char> {
    let rest = s.subrange(spec_leading_white_space(s) as int, s.len() as int);
    rest.subrange(0, rest.len() - spec_trailing_white_space(rest))
}

proof fn lemma_leading_white_space_step(s: Seq<char>, i: int)
    requires
        0 <= i < s.len(),
        forall|j: int| 0 <= j < i ==> char_is_whitespace(#[trigger] s[j]),
    ensures
        spec_leading_white_space(s) >= i,
        !char_is_whitespace(s[i]) ==> spec_leading_white_space(s) == i,
    decreases i,
{
    if i > 0 {
        lemma_leading_white_space_step(s.drop_first(), i - 1);
    }
}

proof fn lemma_leading_white_space_all(s: Seq<char>)
    requires
        forall|j: int| 0 <= j < s.len() ==> char_is_whitespace(#[trigger] s[j]),
    ensures
        spec_leading_white_space(s) == s.len(),
    decreases s.len(),
{
    if s.len() > 0 {
        lemma_leading_white_space_all(s.drop_first());
    }
}

proof fn lemma_trailing_white_space_step(s: Seq<char>, k: int)
    requires
        0 <= k < s.len(),
        forall|j: int| s.len() - k <= j < s.len() ==> char_is_whitespace(#[trigger] s[j]),
    ensures
        spec_trailing_white_space(s) >= k,
        !char_is_whitespace(s[s.len() - 1 - k]) ==> spec_trailing_white_space(s) == k,
    decreases k,
{
    if k > 0 {
        assert forall|j: int| s.drop_last().len() - (k - 1) <= j < s.drop_last().len() implies char_is_whitespace(
            #[trigger] s.drop_last()[j],
        ) by {
            assert(s.drop_last()[j] == s[j]);
        }
        lemma_trailing_white_space_step(s.drop_last(), k - 1);
    }
}

/// The bounds of `s` without its leading and trailing white space.
pub fn trim_bounds(s: &Vec<char>) -> (r: (usize, usize))
    ensures
        r.0 <= r.1 <= s@.len(),
        s@.subrange(r.0 as int, r.1 as int) == spec_trim(s@),
{
    let mut start: usize = 0;
    while start < s.len() && is_whitespace(s[start])
        invariant
            start <= s@.len(),
            forall|j: int| 0 <= j < start ==> char_is_whitespace(#[trigger] s@[j]),
        decreases s@.len() - start,
    {
        start = start + 1;
    }
    proof {
        if start < s@.len() {
            lemma_leading_white_space_step(s@, start as int);
        } else {
            lemma_leading_white_space_all(s@);
        }
    }
    let ghost rest = s@.subrange(start as int, s@.len() as int);
    let mut end: usize = s.len();
    while end > start && is_whitespace(s[end - 1])
        invariant
            start <= end <= s@.len(),
            rest == s@.subrange(start as int, s@.len() as int),
            forall|j: int| end <= j < s@.len() ==> char_is_whitespace(#[trigger] s@[j]),
        decreases end,
    {
        end = end - 1;
    }
    proof {
        let k = (s@.len() - end) as int;
        assert forall|j: int| rest.len() - k <= j < rest.len() implies char_is_whitespace(#[trigger] rest[j]) by {
            assert(rest[j] == s@[start + j]);
        }
        if end > start {
            assert(rest[rest.len() - 1 - k] == s@[end - 1]);
            lemma_trailing_white_space_step(rest, k);
        } else {
            if rest.len() > 0 {
                lemma_trailing_white_space_step(rest, rest.len() - 1);
                assert(rest[rest.len() - 1 - (rest.len() - 1)] == rest[0]);
            }
            lemma_trailing_white_space_bound(rest);
        }
        assert(s@.subrange(start as int, end as int) =~= rest.subrange(
            0,
            rest.len() - spec_trailing_white_space(rest),
        ));
    }
    (start, end)
}

proof fn lemma_trailing_white_space_bound(s: Seq<char>)
    ensures
        spec_trailing_white_space(s) <= s.len(),
    decreases s.len(),
{
    if s.len() > 0 {
        lemma_trailing_white_space_bound(s.drop_last());
    }
}

/// The number of bytes of the UTF-8 encoding of `c`.
pub open spec fn spec_utf8_width(c: char) -> nat {
    let v = c as u32;
    if v < 0x80 {
        1
    } else if v < 0x800 {
        2
    } else if v < 0x10000 {
        3
    } else {
        4
    }
}

/// Returns the number of bytes of the UTF-8 encoding of `c`.
pub fn utf8_width(c: char) -> (r: usize)
    ensures
        r == spec_utf8_width(c),
        1 <= r <= 4,
{
    let v = c as u32;
    if v < 0x80 {
        1
    } else if v < 0x800 {
        2
    } else if v < 0x10000 {
        3
    } else {
        4
    }
}

/// The UTF-8 encoding of a character is as long as its width.
pub proof fn lemma_encode_scalar_len(c: char)
    ensures
        encode_scalar(c as u32).len() == spec_utf8_width(c),
{
    broadcast use vstd::utf8::char_is_scalar;

    assert(vstd::utf8::is_scalar(c as u32));
}

/// The UTF-8 encoding of a string is as long as the widths of its
/// characters together, and at least one byte per character.
pub proof fn lemma_encode_utf8_push(s: Seq<char>, c: char)
    ensures
        encode_utf8(s.push(c)).len() == encode_utf8(s).len() + spec_utf8_width(c),
        encode_utf8(s).len() >= s.len(),
    decreases s.len(),
{
    lemma_encode_scalar_len(c);
    if s.len() == 0 {
        assert(s.push(c).drop_first() =~= Seq::<char>::empty());
        assert(encode_utf8(s.push(c).drop_first()).len() == 0);
        assert(s.push(c)[0] == c);
        assert(encode_utf8(s.push(c)) == encode_scalar(c as u32) + encode_utf8(s.push(c).drop_first()));
    } else {
        lemma_encode_scalar_len(s[0]);
        lemma_encode_utf8_push(s.drop_first(), c);
        assert(s.push(c).drop_first() =~= s.drop_first().push(c));
        assert(s.push(c)[0] == s[0]);
        assert(encode_utf8(s.push(c)) == encode_scalar(s[0] as u32) + encode_utf8(s.drop_first().push(c)));
        assert(encode_utf8(s) == encode_scalar(s[0] as u32) + encode_utf8(s.drop_first()));
    }
}

/// The lower-case hexadecimal digit of a known nibble, `?` for an unknown one.
pub open spec fn spec_nibble_char(d: Option<u32>) -> char {
    match d {
        Some(v) => spec_hex_char(v),
        None => '?',
    }
}

/// The one-character string of a hexadecimal digit or of `?`.
pub fn nibble_str(d: Option<u32>) -> (r: &'static str)
    requires
        d matches Some(v) ==> v < 16,
    ensures
        r@ == seq![spec_nibble_char(d)],
{
    match d {
        None => {
            proof {
                reveal_strlit("?");
                assert("?"@ =~= seq!['?']);
            }
            "?"
        },
        Some(v) => if v == 0 {
            proof {
                reveal_strlit("0");
                assert("0"@ =~= seq![spec_hex_char(v)]);
            }
            "0"
        } else if v == 1 {
            proof {
                reveal_strlit("1");
                assert("1"@ =~= seq![spec_hex_char(v)]);
            }
            "1"
        } else if v == 2 {
            proof {
                reveal_strlit("2");
                assert("2"@ =~= seq![spec_hex_char(v)]);
            }
            "2"
        } else if v == 3 {
            proof {
                reveal_strlit("3");
                assert("3"@ =~= seq![spec_hex_char(v)]);
            }
            "3"
        } else if v == 4 {
            proof {
                reveal_strlit("4");
                assert("4"@ =~= seq![spec_hex_char(v)]);
            }
            "4"
        } else if v == 5 {
            proof {
                reveal_strlit("5");
                assert("5"@ =~= seq![spec_hex_char(v)]);
            }
            "5"
        } else if v == 6 {
            proof {
                reveal_strlit("6");
                assert("6"@ =~= seq![spec_hex_char(v)]);
            }
            "6"
        } else if v == 7 {
            proof {
                reveal_strlit("7");
                assert("7"@ =~= seq![spec_hex_char(v)]);
            }
            "7"
        } else if v == 8 {
            proof {
                reveal_strlit("8");
                assert("8"@ =~= seq![spec_hex_char(v)]);
            }
            "8"
        } else if v == 9 {
            proof {
                reveal_strlit("9");
                assert("9"@ =~= seq![spec_hex_char(v)]);
            }
            "9"
        } else if v == 10 {
            proof {
                reveal_strlit("a");
                assert("a"@ =~= seq![spec_hex_char(v)]);
            }
            "a"
        } else if v == 11 {
            proof {
                reveal_strlit("b");
                assert("b"@ =~= seq![spec_hex_char(v)]);
            }
            "b"
        } else if v == 12 {
            proof {
                reveal_strlit("c");
                assert("c"@ =~= seq![spec_hex_char(v)]);
            }
            "c"
        } else if v == 13 {
            proof {
                reveal_strlit("d");
                assert("d"@ =~= seq![spec_hex_char(v)]);
            }
            "d"
        } else if v == 14 {
            proof {
                reveal_strlit("e");
                assert("e"@ =~= seq![spec_hex_char(v)]);
            }
            "e"
        } else {
            proof {
                reveal_strlit("f");
                assert("f"@ =~= seq![spec_hex_char(v)]);
            }
            "f"
        },
    }
}

/// Appends `tail` to `s`.
pub fn append_str(s: &mut String, tail: &str)
    ensures
        final(s)@ == old(s)@ + tail@,
{
    s.append(tail);
}

/// The decimal digits of `n`, without leading zeros.
pub open spec fn spec_decimal(n: nat) -> Seq<char>
    decreases n,
{
    if n < 10 {
        seq![spec_hex_char(n as u32)]
    } else {
        spec_decimal(n / 10).push(spec_hex_char((n % 10) as u32))
    }
}

/// Returns the decimal digits of `n`.
pub fn decimal_string(n: u64) -> (r: String)
    ensures
        r@ == spec_decimal(n as nat),
    decreases n,
{
    if n < 10 {
        let mut out = String::new();
        append_str(&mut out, nibble_str(Some(n as u32)));
        assert(out@ =~= spec_decimal(n as nat));
        out
    } else {
        let mut out = decimal_string(n / 10);
        append_str(&mut out, nibble_str(Some((n % 10) as u32)));
        assert(out@ =~= spec_decimal(n as nat));
        out
    }
}

/// The eight lower-case hexadecimal digits of `n`, most significant first.
pub open spec fn spec_hex8(n: u32) -> Seq<char> {
    Seq::new(8, |i: int| spec_hex_char((n >> (((7 - i) * 4) as u32)) & 0xF))
}

/// Returns the eight lower-case hexadecimal digits of `n`.
pub fn hex8_string(n: u32) -> (r: String)
    ensures
        r@ == spec_hex8(n),
{
    let mut out = String::new();
    let mut i: u32 = 0;
    while i < 8
        invariant
            i <= 8,
            out@ == Seq::new(i as nat, |k: int| spec_hex_char((n >> (((7 - k) * 4) as u32)) & 0xF)),
        decreases 8 - i,
    {
        let shift = (7 - i) * 4;
        let d = (n >> shift) & 0xF;
        assert(d < 16) by (bit_vector)
            requires
                d == (n >> shift) & 0xF,
        ;
        assert(((7 - i) as int * 4) as u32 == shift);
        append_str(&mut out, nibble_str(Some(d)));
        assert(out@ =~= Seq::new(
            (i + 1) as nat,
            |k: int| spec_hex_char((n >> (((7 - k) * 4) as u32)) & 0xF),
        ));
        i = i + 1;
    }
    out
}

/// Calls `String::push`, which appends one character to the string.
#[verifier::external_body]
pub(crate) fn push_char(s: &mut String, c: char)
    ensures
        final(s)@ == old(s)@.push(c),
{
    s.push(c)
}

/// How `{:?}` writes the character `c`: quoted, with escapes.
pub uninterp spec fn char_debug_text(c: char) -> Seq<char>;

/// Calls the `Debug` formatting of `char` (`format!("{c:?}")`). Claimed: the
/// text is a function of `c` alone, and a printable ASCII character other
/// than the quote and the backslash is written as itself between single
/// quotes. The escapes of other characters are left unsaid.
#[verifier::external_body]
pub(crate) fn char_debug(c: char) -> (r: String)
    ensures
        r@ == char_debug_text(c),
        (' ' <= c <= '~' && c != '\'' && c != '\\') ==> r@ == seq!['\'', c, '\''],
{
    format!("{c:?}")
}

/// The UTF-8 encoding of a concatenation is the concatenation of the
/// encodings.
pub proof fn lemma_encode_utf8_add(a: Seq<char>, b: Seq<char>)
    ensures
        encode_utf8(a + b) == encode_utf8(a) + encode_utf8(b),
    decreases a.len(),
{
    if a.len() == 0 {
        assert(a + b =~= b);
        assert(encode_utf8(a) =~= Seq::<u8>::empty());
        assert(encode_utf8(a) + encode_utf8(b) =~= encode_utf8(b));
    } else {
        lemma_encode_utf8_add(a.drop_first(), b);
        assert((a + b).drop_first() =~= a.drop_first() + b);
        assert((a + b)[0] == a[0]);
        assert(encode_utf8(a + b) == encode_scalar(a[0] as u32) + encode_utf8(a.drop_first() + b));
        assert(encode_utf8(a) == encode_scalar(a[0] as u32) + encode_utf8(a.drop_first()));
        assert(encode_utf8(a + b) =~= encode_utf8(a) + encode_utf8(b));
    }
}

/// Returns the number of bytes that the first `k` characters of `s` take in
/// UTF-8.
pub fn utf8_offset(s: &Vec<char>, k: usize) -> (r: usize)
    requires
        k <= s@.len(),
        encode_utf8(s@).len() <= usize::MAX,
    ensures
        r == encode_utf8(s@.take(k as int)).len(),
{
    proof {
        lemma_encode_utf8_add(s@.take(k as int), s@.skip(k as int));
        assert(s@.take(k as int) + s@.skip(k as int) =~= s@);
    }
    let mut off: usize = 0;
    let mut i: usize = 0;
    while i < k
        invariant
            i <= k <= s@.len(),
            encode_utf8(s@.take(k as int)).len() <= usize::MAX,
            off == encode_utf8(s@.take(i as int)).len(),
        decreases k - i,
    {
        proof {
            lemma_encode_utf8_push(s@.take(i as int), s@[i as int]);
            assert(s@.take(i + 1) =~= s@.take(i as int).push(s@[i as int]));
            lemma_encode_utf8_add(s@.take(i + 1), s@.subrange(i + 1, k as int));
            assert(s@.take(i + 1) + s@.subrange(i + 1, k as int) =~= s@.take(k as int));
        }
        off = off + utf8_width(s[i]);
        i = i + 1;
    }
    off
}

/// Whether `s[start..end]` holds exactly the characters of `lit`.
pub fn chars_equal_str(s: &Vec<char>, start: usize, end: usize, lit: &str) -> (r: bool)
    requires
        start <= end <= s@.len(),
    ensures
        r == (s@.subrange(start as int, end as int) == lit@),
{
    let l = str_chars(lit);
    if end - start != l.len() {
        assert(s@.subrange(start as int, end as int).len() != lit@.len());
        return false;
    }
    let mut i: usize = 0;
    while i < l.len()
        invariant
            i <= l@.len(),
            l@ == lit@,
            end - start == l@.len(),
            start <= end <= s@.len(),
            forall|j: int| 0 <= j < i ==> s@[start + j] == l@[j],
        decreases l@.len() - i,
    {
        if s[start + i] != l[i] {
            assert(s@.subrange(start as int, end as int)[i as int] != lit@[i as int]);
            return false;
        }
        i = i + 1;
    }
    assert(s@.subrange(start as int, end as int) =~= lit@);
    true
}

/// The digit of a nibble reads back as the nibble, and is a lower-case
/// hexadecimal digit.
pub proof fn lemma_hex_char_digit(d: u32)
    requires
        d < 16,
    ensures
        spec_to_digit(spec_hex_char(d), 16) == Some(d),
        ('0' <= spec_hex_char(d) <= '9') || ('a' <= spec_hex_char(d) <= 'f'),
        (spec_hex_char(d) as u32) < 0x80,
{
    broadcast use vstd::utf8::char_u32_cast;

    if d < 10 {
        assert((('0' as u32 + d) as char) as u32 == '0' as u32 + d);
    } else {
        assert((('a' as u32 + d - 10) as char) as u32 == 'a' as u32 + d - 10);
    }
}

/// An ASCII string takes one byte per character.
pub proof fn lemma_ascii_utf8_len(s: Seq<char>)
    requires
        forall|j: int| 0 <= j < s.len() ==> (#[trigger] s[j] as u32) < 0x80,
    ensures
        encode_utf8(s).len() == s.len(),
    decreases s.len(),
{
    if s.len() > 0 {
        let t = s.drop_last();
        assert forall|j: int| 0 <= j < t.len() implies (#[trigger] t[j] as u32) < 0x80 by {
            assert(t[j] == s[j]);
        }
        lemma_ascii_utf8_len(t);
        lemma_encode_utf8_push(t, s.last());
        assert(t.push(s.last()) =~= s);
        assert((s[s.len() - 1] as u32) < 0x80);
    }
}

} // verus!
