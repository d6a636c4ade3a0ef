//! Splitting a policy expression into tokens.

use crate::text::{
    append_str, char_is_whitespace, chars_equal_str, is_ascii_white_space, is_whitespace, str_chars,
};
use vstd::prelude::*;
use vstd::string::{StrSliceExecFns, StringExecFns};

verus! {

/// A token of the policy language.
#[derive(Debug, Clone, PartialEq, Eq)]
pub enum Token<'a> {
    And,
    Or,
    LParen,
    RParen,
    Comma,
    Ident(&'a str),
}

/// A token as plain values.
pub enum TokenView {
    And,
    Or,
    LParen,
    RParen,
    Comma,
    Ident(Seq<char>),
}

impl<'a> View for Token<'a> {
    type V = TokenView;

    open spec fn view(&self) -> TokenView {
        match self {
            Token::And => TokenView::And,
            Token::Or => TokenView::Or,
            Token::LParen => TokenView::LParen,
            Token::RParen => TokenView::RParen,
            Token::Comma => TokenView::Comma,
            Token::Ident(s) => TokenView::Ident(s@),
        }
    }
}

/// The views of a list of tokens.
pub open spec fn tokens_view<'a>(t: Seq<Token<'a>>) -> Seq<TokenView> {
    t.map_values(|x: Token<'a>| x@)
}

/// A character that ends an identifier: white space or a delimiter.
pub open spec fn spec_ends_ident(c: char) -> bool {
    char_is_whitespace(c) || c == '(' || c == ')' || c == ','
}

/// The number of leading characters of `s` that make up an identifier.
pub open spec fn spec_ident_len(s: Seq<char>) -> nat
    decreases s.len(),
{
    if s.len() == 0 || spec_ends_ident(s[0]) {
        0
    } else {
        1 + spec_ident_len(s.drop_first())
    }
}

/// An identifier is no longer than the characters it is read from.
pub proof fn lemma_ident_len_bound(s: Seq<char>)
    ensures
        spec_ident_len(s) <= s.len(),
    decreases s.len(),
{
    if s.len() > 0 {
        lemma_ident_len_bound(s.drop_first());
    }
}

/// No character of `s` is white space outside ASCII. On such a character
/// the scan stands still: it ends an identifier but is not skipped as white
/// space between tokens.
pub open spec fn spec_tokenizable(s: Seq<char>) -> bool {
    forall|i: int| 0 <= i < s.len() && char_is_whitespace(#[trigger] s[i]) ==> (s[i] as u32) < 0x80
}

/// The tokens of `s`, read from the front: `(`, `)` and `,` stand alone,
/// ASCII white space separates, and any other run of characters up to white
/// space or a delimiter is an identifier, `and` and `or` being keywords.
pub open spec fn spec_tokenize(s: Seq<char>) -> Seq<TokenView>
    decreases s.len(),
{
    if s.len() == 0 {
        Seq::empty()
    } else {
        let c = s[0];
        if c == '(' {
            seq![TokenView::LParen] + spec_tokenize(s.drop_first())
        } else if c == ')' {
            seq![TokenView::RParen] + spec_tokenize(s.drop_first())
        } else if c == ',' {
            seq![TokenView::Comma] + spec_tokenize(s.drop_first())
        } else if is_ascii_white_space(c) {
            spec_tokenize(s.drop_first())
        } else {
            let n = spec_ident_len(s);
            if n == 0 {
                Seq::empty()
            } else {
                let ident = s.take(n as int);
                let token = if ident == "and"@ {
                    TokenView::And
                } else if ident == "or"@ {
                    TokenView::Or
                } else {
                    TokenView::Ident(ident)
                };
                proof {
                    lemma_ident_len_bound(s);
                }
                seq![token] + spec_tokenize(s.skip(n as int))
            }
        }
    }
}

proof fn lemma_ident_len_at(s: Seq<char>, i: int, j: int)
    requires
        0 <= i <= j <= s.len(),
        forall|k: int| i <= k < j ==> !spec_ends_ident(#[trigger] s[k]),
        j == s.len() || spec_ends_ident(s[j]),
    ensures
        spec_ident_len(s.skip(i)) == j - i,
    decreases j - i,
{
    if i < j {
        assert(s.skip(i).drop_first() =~= s.skip(i + 1));
        lemma_ident_len_at(s, i + 1, j);
    }
}

/// Splits a policy expression into tokens.
pub fn tokenize<'a>(input: &'a str) -> (r: Vec<Token<'a>>)
    requires
        spec_tokenizable(input@),
    ensures
        tokens_view(r@) == spec_tokenize(input@),
{
    let chars = str_chars(input);
    let ghost s = chars@;
    let mut tokens: Vec<Token<'a>> = Vec::new();
    let mut i: usize = 0;
    assert(s.skip(0) =~= s);
    while i < chars.len()
        invariant
            i <= s.len(),
            s == chars@,
            s == input@,
            spec_tokenizable(s),
            tokens_view(tokens@) + spec_tokenize(s.skip(i as int)) == spec_tokenize(s),
        decreases s.len() - i,
    {
        let c = chars[i];
        let ghost rest = s.skip(i as int);
        assert(rest[0] == c);
        assert(rest.drop_first() =~= s.skip(i + 1));
        let ghost before = tokens@;
        if c == '(' || c == ')' || c == ',' {
            let t = if c == '(' {
                Token::LParen
            } else if c == ')' {
                Token::RParen
            } else {
                Token::Comma
            };
            tokens.push(t);
            assert(tokens_view(tokens@) =~= tokens_view(before) + seq![t@]);
            i = i + 1;
        } else if c == ' ' || ('\t' <= c && c <= '\r') {
            i = i + 1;
        } else {
            let start = i;
            let mut end = i;
            while end < chars.len() && !is_whitespace(chars[end]) && chars[end] != '(' && chars[end] != ')'
                && chars[end] != ','
                invariant
                    start <= end <= s.len(),
                    s == chars@,
                    forall|k: int| start <= k < end ==> !spec_ends_ident(#[trigger] s[k]),
                decreases s.len() - end,
            {
                end = end + 1;
            }
            proof {
                lemma_ident_len_at(s, start as int, end as int);
                if end == start {
                    assert(spec_ends_ident(s[start as int]));
                    assert(char_is_whitespace(c));
                    assert(s[start as int] == c);
                    assert((c as u32) < 0x80);
                    assert(false);
                }
                assert(rest.take((end - start) as int) =~= s.subrange(start as int, end as int));
                assert(rest.skip((end - start) as int) =~= s.skip(end as int));
            }
            let t = if chars_equal_str(&chars, start, end, "and") {
                Token::And
            } else if chars_equal_str(&chars, start, end, "or") {
                Token::Or
            } else {
                Token::Ident(input.substring_char(start, end))
            };
            tokens.push(t);
            assert(tokens_view(tokens@) =~= tokens_view(before) + seq![t@]);
            i = end;
        }
    }
    assert(s.skip(i as int) =~= Seq::<char>::empty());
    assert(tokens_view(tokens@) + Seq::<TokenView>::empty() =~= tokens_view(tokens@));
    tokens
}

/// Splits a policy expression into tokens, when the scan gets through it:
/// `None` when a character outside ASCII is white space.
pub fn try_tokenize<'a>(input: &'a str) -> (r: Option<Vec<Token<'a>>>)
    ensures
        match r {
            Some(t) => spec_tokenizable(input@) && tokens_view(t@) == spec_tokenize(input@),
            None => !spec_tokenizable(input@),
        },
{
    let chars = str_chars(input);
    let mut i: usize = 0;
    while i < chars.len()
        invariant
            i <= chars@.len(),
            chars@ == input@,
            forall|k: int| 0 <= k < i && char_is_whitespace(#[trigger] chars@[k]) ==> (chars@[k] as u32) < 0x80,
        decreases chars@.len() - i,
    {
        if (chars[i] as u32) >= 0x80 && is_whitespace(chars[i]) {
            return None;
        }
        i = i + 1;
    }
    Some(tokenize(input))
}

impl<'a> Token<'a> {
    /// How the token is shown in messages: quoted.
    pub open spec fn spec_text(self) -> Seq<char> {
        match self {
            Token::And => "'and'"@,
            Token::Or => "'or'"@,
            Token::LParen => "'('"@,
            Token::RParen => "')'"@,
            Token::Comma => "','"@,
            Token::Ident(s) => "'"@ + s@ + "'"@,
        }
    }

    /// Returns how the token is shown in messages.
    pub fn to_string(&self) -> (r: String)
        ensures
            r@ == self.spec_text(),
    {
        match self {
            Token::And => String::from_str("'and'"),
            Token::Or => String::from_str("'or'"),
            Token::LParen => String::from_str("'('"),
            Token::RParen => String::from_str("')'"),
            Token::Comma => String::from_str("','"),
            Token::Ident(s) => {
                let mut out = String::from_str("'");
                append_str(&mut out, s);
                append_str(&mut out, "'");
                out
            },
        }
    }
}

/// The characters a token stands for in the input: the keywords and the
/// delimiters as written, an identifier as its characters.
pub open spec fn spec_token_chars(t: TokenView) -> Seq<char> {
    match t {
        TokenView::And => "and"@,
        TokenView::Or => "or"@,
        TokenView::LParen => seq!['('],
        TokenView::RParen => seq![')'],
        TokenView::Comma => seq![','],
        TokenView::Ident(x) => x,
    }
}

/// The characters of a list of tokens, one after the other.
pub open spec fn spec_tokens_chars(ts: Seq<TokenView>) -> Seq<char>
    decreases ts.len(),
{
    if ts.len() == 0 {
        Seq::empty()
    } else {
        spec_token_chars(ts[0]) + spec_tokens_chars(ts.drop_first())
    }
}

/// `s` with every white space character removed.
pub open spec fn spec_drop_whitespace(s: Seq<char>) -> Seq<char>
    decreases s.len(),
{
    if s.len() == 0 {
        Seq::empty()
    } else if char_is_whitespace(s[0]) {
        spec_drop_whitespace(s.drop_first())
    } else {
        seq![s[0]] + spec_drop_whitespace(s.drop_first())
    }
}

/// An identifier token is not empty and holds neither white space nor a
/// delimiter.
pub open spec fn spec_token_clean(t: TokenView) -> bool {
    t matches TokenView::Ident(x) ==> {
        &&& x.len() > 0
        &&& forall|k: int| 0 <= k < x.len() ==> !spec_ends_ident(#[trigger] x[k])
    }
}

proof fn lemma_ascii_white_space(c: char)
    requires
        char_is_whitespace(c),
        (c as u32) < 0x80,
    ensures
        is_ascii_white_space(c),
{
    let u = c as u32;
    if u == 0x20 {
        assert(c == ' ');
    } else {
        assert(0x09 <= u <= 0x0D);
        assert('\t' as u32 == 0x09);
        assert('\r' as u32 == 0x0D);
    }
}

proof fn lemma_tokens_chars_cons(t: TokenView, rest: Seq<TokenView>)
    ensures
        spec_tokens_chars(seq![t] + rest) == spec_token_chars(t) + spec_tokens_chars(rest),
{
    assert((seq![t] + rest).drop_first() =~= rest);
    assert((seq![t] + rest)[0] == t);
}

proof fn lemma_clean_cons(t: TokenView, rest: Seq<TokenView>)
    requires
        spec_token_clean(t),
        forall|i: int| 0 <= i < rest.len() ==> spec_token_clean(#[trigger] rest[i]),
    ensures
        forall|i: int| 0 <= i < (seq![t] + rest).len() ==> spec_token_clean(#[trigger] (seq![t] + rest)[i]),
{
    assert forall|i: int| 0 <= i < (seq![t] + rest).len() implies spec_token_clean(#[trigger] (seq![t] + rest)[i]) by {
        if i > 0 {
            assert((seq![t] + rest)[i] == rest[i - 1]);
        }
    }
}

proof fn lemma_ident_len_clean(s: Seq<char>)
    ensures
        forall|k: int| 0 <= k < spec_ident_len(s) ==> !spec_ends_ident(#[trigger] s[k]),
    decreases s.len(),
{
    if s.len() > 0 && !spec_ends_ident(s[0]) {
        lemma_ident_len_bound(s);
        lemma_ident_len_clean(s.drop_first());
        assert forall|k: int| 0 <= k < spec_ident_len(s) implies !spec_ends_ident(#[trigger] s[k]) by {
            if k > 0 {
                assert(s[k] == s.drop_first()[k - 1]);
            }
        }
    }
}

proof fn lemma_drop_whitespace_front(s: Seq<char>, n: int)
    requires
        0 <= n <= s.len(),
        forall|k: int| 0 <= k < n ==> !char_is_whitespace(#[trigger] s[k]),
    ensures
        spec_drop_whitespace(s) == s.take(n) + spec_drop_whitespace(s.skip(n)),
    decreases n,
{
    if n == 0 {
        assert(s.skip(0) =~= s);
        assert(s.take(0) + spec_drop_whitespace(s) =~= spec_drop_whitespace(s));
    } else {
        let s1 = s.drop_first();
        assert forall|k: int| 0 <= k < n - 1 implies !char_is_whitespace(#[trigger] s1[k]) by {
            assert(s1[k] == s[k + 1]);
        }
        assert(!char_is_whitespace(s[0]));
        lemma_drop_whitespace_front(s1, n - 1);
        assert(s1.skip(n - 1) =~= s.skip(n));
        assert(seq![s[0]] + s1.take(n - 1) =~= s.take(n));
        assert(seq![s[0]] + (s1.take(n - 1) + spec_drop_whitespace(s.skip(n))) =~= s.take(n)
            + spec_drop_whitespace(s.skip(n)));
    }
}

proof fn lemma_tokenizable_skip(s: Seq<char>, n: int)
    requires
        spec_tokenizable(s),
        0 <= n <= s.len(),
    ensures
        spec_tokenizable(s.skip(n)),
{
    assert forall|i: int| 0 <= i < s.skip(n).len() && char_is_whitespace(#[trigger] s.skip(n)[i])
        implies (s.skip(n)[i] as u32) < 0x80 by {
        assert(s.skip(n)[i] == s[i + n]);
    }
}

/// What tokenizing gives back: on every input whose white space is ASCII,
/// the tokens, each written as the characters it stands for, spell the input
/// with its white space removed, and no identifier is empty or holds white
/// space or a delimiter.
pub proof fn lemma_tokenize_spells_input(s: Seq<char>)
    requires
        spec_tokenizable(s),
    ensures
        spec_tokens_chars(spec_tokenize(s)) == spec_drop_whitespace(s),
        forall|i: int| 0 <= i < spec_tokenize(s).len() ==> spec_token_clean(#[trigger] spec_tokenize(s)[i]),
    decreases s.len(),
{
    if s.len() > 0 {
        let c = s[0];
        let s1 = s.drop_first();
        assert(s.skip(1) =~= s1);
        lemma_tokenizable_skip(s, 1);
        if c == '(' || c == ')' || c == ',' {
            lemma_tokenize_spells_input(s1);
            let t = if c == '(' {
                TokenView::LParen
            } else if c == ')' {
                TokenView::RParen
            } else {
                TokenView::Comma
            };
            assert(spec_tokenize(s) == seq![t] + spec_tokenize(s1));
            lemma_tokens_chars_cons(t, spec_tokenize(s1));
            lemma_clean_cons(t, spec_tokenize(s1));
            assert(!char_is_whitespace(c));
            assert(spec_token_chars(t) == seq![c]);
        } else if is_ascii_white_space(c) {
            lemma_tokenize_spells_input(s1);
        } else {
            if char_is_whitespace(c) {
                assert(char_is_whitespace(s[0]));
                assert((s[0] as u32) < 0x80);
                lemma_ascii_white_space(c);
                assert(false);
            }
            let n = spec_ident_len(s);
            assert(n > 0);
            lemma_ident_len_bound(s);
            lemma_ident_len_clean(s);
            let ident = s.take(n as int);
            let rest = s.skip(n as int);
            lemma_tokenizable_skip(s, n as int);
            lemma_tokenize_spells_input(rest);
            let token = if ident == "and"@ {
                TokenView::And
            } else if ident == "or"@ {
                TokenView::Or
            } else {
                TokenView::Ident(ident)
            };
            assert(spec_tokenize(s) == seq![token] + spec_tokenize(rest));
            lemma_tokens_chars_cons(token, spec_tokenize(rest));
            assert forall|k: int| 0 <= k < n implies !char_is_whitespace(#[trigger] s[k]) by {
                assert(!spec_ends_ident(s[k]));
            }
            lemma_drop_whitespace_front(s, n as int);
            assert(spec_token_chars(token) == ident);
            assert forall|k: int| 0 <= k < ident.len() implies !spec_ends_ident(#[trigger] ident[k]) by {
                assert(ident[k] == s[k]);
            }
            lemma_clean_cons(token, spec_tokenize(rest));
        }
    }
}

} // verus!
