//! The character scanner: splits raw instruction text into tokens,
//! discarding whitespace and `//` comments (which extend to the next
//! control character).
//!
//! A token is a maximal run of decimal digits, a maximal run of name
//! characters (letters, digits, `_`, `.`, `$`) starting with a letter,
//! or a single other character.

use vstd::prelude::*;

use crate::text::spec_is_digit;

verus! {

/// Whether `c` separates tokens.
pub open spec fn is_ws(c: char) -> bool {
    c == ' ' || c == '\t' || c == '\n' || c == '\r'
}

/// Whether `c` is a control character, ending an inline comment.
pub open spec fn is_ctrl(c: char) -> bool {
    (c as u32) < 32 || (c as u32) == 127
}

/// Whether `c` is a letter, able to start a name token.
pub open spec fn is_alpha(c: char) -> bool {
    (65 <= (c as u32) && (c as u32) <= 90) || (97 <= (c as u32) && (c as u32) <= 122)
}

/// Whether `c` may continue a name token.
pub open spec fn is_name_char(c: char) -> bool {
    is_alpha(c) || spec_is_digit(c) || c == '_' || c == '.' || c == '$'
}

/// The three maximal-run shapes the scanner chops.
#[derive(Clone, Copy, PartialEq, Eq, Structural, Debug)]
pub enum CharClass {
    Digit,
    Name,
    NonCtrl,
}

/// Membership of one character in a run class.
pub open spec fn in_class(k: CharClass, c: char) -> bool {
    match k {
        CharClass::Digit => spec_is_digit(c),
        CharClass::Name => is_name_char(c),
        CharClass::NonCtrl => !is_ctrl(c),
    }
}

/// The length of the maximal prefix of `s` within class `k`.
pub open spec fn spec_class_len(k: CharClass, s: Seq<char>) -> nat
    decreases s.len(),
{
    if s.len() > 0 && in_class(k, s[0]) {
        1 + spec_class_len(k, s.drop_first())
    } else {
        0
    }
}

/// `s` with its leading whitespace removed.
pub open spec fn spec_drop_ws(s: Seq<char>) -> Seq<char>
    decreases s.len(),
{
    if s.len() > 0 && is_ws(s[0]) {
        spec_drop_ws(s.drop_first())
    } else {
        s
    }
}

/// `s` with all leading whitespace and `//` comments removed: the
/// position where the next token, if any, begins.
pub open spec fn spec_blank_skip(s: Seq<char>) -> Seq<char>
    decreases s.len(),
{
    if s.len() > 0 && is_ws(s[0]) {
        spec_blank_skip(s.drop_first())
    } else if s.len() > 1 && s[0] == '/' && s[1] == '/' {
        let n = spec_class_len(CharClass::NonCtrl, s);
        if 1 <= n <= s.len() {
            spec_blank_skip(s.skip(n as int))
        } else {
            s
        }
    } else {
        s
    }
}

/// The length of the token at the head of (blank-skipped) `s`.
pub open spec fn spec_token_len(s: Seq<char>) -> nat {
    if s.len() == 0 {
        0
    } else if spec_is_digit(s[0]) {
        spec_class_len(CharClass::Digit, s)
    } else if is_alpha(s[0]) {
        spec_class_len(CharClass::Name, s)
    } else {
        1
    }
}

/// A maximal class prefix is never longer than the string.
pub proof fn lemma_class_len_le(k: CharClass, s: Seq<char>)
    ensures
        spec_class_len(k, s) <= s.len(),
    decreases s.len(),
{
    if s.len() > 0 && in_class(k, s[0]) {
        lemma_class_len_le(k, s.drop_first());
    }
}

/// Skipping blanks twice is the same as skipping them once.
proof fn lemma_blank_skip_drop_ws(s: Seq<char>)
    ensures
        spec_blank_skip(spec_drop_ws(s)) == spec_blank_skip(s),
    decreases s.len(),
{
    if s.len() > 0 && is_ws(s[0]) {
        lemma_blank_skip_drop_ws(s.drop_first());
    }
}

/// After dropping whitespace nothing further of it leads.
proof fn lemma_drop_ws_head(s: Seq<char>)
    ensures
        spec_drop_ws(s).len() > 0 ==> !is_ws(spec_drop_ws(s)[0]),
        spec_drop_ws(s).len() <= s.len(),
    decreases s.len(),
{
    if s.len() > 0 && is_ws(s[0]) {
        lemma_drop_ws_head(s.drop_first());
    }
}

/// The maximal class prefix ends exactly at the first character out of
/// the class.
proof fn lemma_class_len_eq(k: CharClass, s: Seq<char>, i: int)
    requires
        0 <= i <= s.len(),
        forall|j: int| 0 <= j < i ==> in_class(k, s[j]),
        i == s.len() || !in_class(k, s[i]),
    ensures
        spec_class_len(k, s) == i,
    decreases s.len(),
{
    if i == 0 {
    } else {
        assert(in_class(k, s[0]));
        assert(forall|j: int| 0 <= j < i - 1 ==> in_class(k, s.drop_first()[j]));
        lemma_class_len_eq(k, s.drop_first(), i - 1);
    }
}

/// The full token sequence of `s`: what repeated calls of
/// [`Lexer::next_token`] yield until end of input.
pub open spec fn spec_tokens(s: Seq<char>) -> Seq<Seq<char>>
    decreases s.len(),
{
    let t = spec_blank_skip(s);
    if t.len() == 0 {
        Seq::empty()
    } else {
        let n = spec_token_len(t) as int;
        if 1 <= n <= t.len() && t.len() <= s.len() {
            seq![t.take(n)] + spec_tokens(t.skip(n))
        } else {
            seq![t]
        }
    }
}

/// Skipping blanks never lengthens the text.
pub proof fn lemma_blank_skip_le(s: Seq<char>)
    ensures
        spec_blank_skip(s).len() <= s.len(),
    decreases s.len(),
{
    if s.len() > 0 && is_ws(s[0]) {
        lemma_blank_skip_le(s.drop_first());
    } else if s.len() > 1 && s[0] == '/' && s[1] == '/' {
        let n = spec_class_len(CharClass::NonCtrl, s);
        if 1 <= n <= s.len() {
            lemma_blank_skip_le(s.skip(n as int));
        }
    }
}

/// The head token of a non-empty blank-skipped text has between 1 and
/// `len` characters.
pub proof fn lemma_token_len_bounds(t: Seq<char>)
    requires
        t.len() > 0,
    ensures
        1 <= spec_token_len(t) <= t.len(),
{
    if spec_is_digit(t[0]) {
        assert(in_class(CharClass::Digit, t[0]));
        lemma_class_len_le(CharClass::Digit, t);
    } else if is_alpha(t[0]) {
        assert(in_class(CharClass::Name, t[0]));
        lemma_class_len_le(CharClass::Name, t);
    }
}

/// One unfolding of [`spec_tokens`]: the head token, then the tokens of
/// the rest.
pub proof fn lemma_tokens_step(s: Seq<char>)
    ensures
        spec_blank_skip(s).len() == 0 ==> spec_tokens(s) == Seq::<Seq<char>>::empty(),
        spec_blank_skip(s).len() > 0 ==> spec_tokens(s) == seq![
            spec_blank_skip(s).take(spec_token_len(spec_blank_skip(s)) as int),
        ] + spec_tokens(spec_blank_skip(s).skip(spec_token_len(spec_blank_skip(s)) as int)),
{
    let t = spec_blank_skip(s);
    lemma_blank_skip_le(s);
    if t.len() > 0 {
        lemma_token_len_bounds(t);
    }
}

/// Whitespace test on one character.
pub fn is_ws_char(c: char) -> (r: bool)
    ensures
        r == is_ws(c),
{
    c == ' ' || c == '\t' || c == '\n' || c == '\r'
}

/// Letter test on one character.
pub fn is_alpha_char(c: char) -> (r: bool)
    ensures
        r == is_alpha(c),
{
    let u = c as u32;
    (65 <= u && u <= 90) || (97 <= u && u <= 122)
}

/// Class-membership test on one character.
pub fn in_class_char(k: CharClass, c: char) -> (r: bool)
    ensures
        r == in_class(k, c),
{
    let u = c as u32;
    match k {
        CharClass::Digit => crate::text::is_digit_char(c),
        CharClass::Name => (65 <= u && u <= 90) || (97 <= u && u <= 122)
            || crate::text::is_digit_char(c) || c == '_' || c == '.' || c == '$',
        CharClass::NonCtrl => !(u < 32 || u == 127),
    }
}

/// Whether a token spells exactly the given keyword.
pub fn token_eq(t: &[char], kw: &str) -> (r: bool)
    ensures
        r == (t@ == kw@),
{
    let n = kw.unicode_len();
    if t.len() != n {
        return false;
    }
    let mut i: usize = 0;
    while i < n
        invariant
            0 <= i <= n,
            n == t@.len() && n == kw@.len(),
            forall|j: int| 0 <= j < i ==> t@[j] == kw@[j],
        decreases n - i,
    {
        let c = kw.get_char(i);
        if *vstd::slice::slice_index_get(t, i) != c {
            return false;
        }
        i = i + 1;
    }
    proof {
        assert(t@ =~= kw@);
    }
    true
}

/// The scanner over one piece of instruction text.
pub struct Lexer<'a> {
    pub content: &'a [char],
}

impl<'a> Lexer<'a> {
    /// A scanner at the start of `content`.
    pub fn new(content: &'a [char]) -> (r: Self)
        ensures
            r.content@ == content@,
    {
        Self { content }
    }

    /// Removes leading whitespace.
    pub fn trim_left(&mut self)
        ensures
            final(self).content@ == spec_drop_ws(old(self).content@),
    {
        while self.content.len() > 0 && is_ws_char(*vstd::slice::slice_index_get(self.content, 0))
            invariant
                spec_drop_ws(self.content@) == spec_drop_ws(old(self).content@),
            decreases self.content@.len(),
        {
            proof {
                assert(self.content@.drop_first() =~= self.content@.skip(1));
            }
            self.content = vstd::slice::slice_subrange(self.content, 1, self.content.len());
        }
    }

    /// Splits off the first `n` characters as a token.
    fn chop(&mut self, n: usize) -> (token: &'a [char])
        requires
            n <= old(self).content@.len(),
        ensures
            token@ == old(self).content@.take(n as int),
            final(self).content@ == old(self).content@.skip(n as int),
    {
        let token = vstd::slice::slice_subrange(self.content, 0, n);
        self.content = vstd::slice::slice_subrange(self.content, n, self.content.len());
        token
    }

    /// Chops the maximal prefix within class `k`.
    fn chop_class(&mut self, k: CharClass) -> (token: &'a [char])
        ensures
            token@ == old(self).content@.take(spec_class_len(k, old(self).content@) as int),
            final(self).content@ == old(self).content@.skip(
                spec_class_len(k, old(self).content@) as int,
            ),
    {
        let len = self.content.len();
        let mut i: usize = 0;
        while i < len && in_class_char(k, *vstd::slice::slice_index_get(self.content, i))
            invariant
                0 <= i <= len,
                len == self.content@.len(),
                self.content == old(self).content,
                forall|j: int| 0 <= j < i ==> in_class(k, self.content@[j]),
            decreases len - i,
        {
            i = i + 1;
        }
        proof {
            lemma_class_len_eq(k, self.content@, i as int);
        }
        self.chop(i)
    }

    /// Yields the next token, skipping whitespace and comments; `None`
    /// at end of input.
    pub fn next_token(&mut self) -> (r: Option<&'a [char]>)
        ensures
            ({
                let t = spec_blank_skip(old(self).content@);
                if t.len() == 0 {
                    r is None && final(self).content@ == t
                } else {
                    let n = spec_token_len(t) as int;
                    r matches Some(tok) && tok@ == t.take(n) && final(self).content@ == t.skip(n)
                }
            }),
    {
        loop
            invariant
                spec_blank_skip(self.content@) == spec_blank_skip(old(self).content@),
            ensures
                self.content@ == spec_blank_skip(old(self).content@),
            decreases self.content@.len(),
        {
            let ghost prev = self.content@;
            self.trim_left();
            proof {
                lemma_blank_skip_drop_ws(prev);
                lemma_drop_ws_head(prev);
            }
            if self.content.len() > 1 && *vstd::slice::slice_index_get(self.content, 0) == '/'
                && *vstd::slice::slice_index_get(self.content, 1) == '/' {
                proof {
                    lemma_class_len_le(CharClass::NonCtrl, self.content@);
                    assert(in_class(CharClass::NonCtrl, self.content@[0]));
                    assert(spec_class_len(CharClass::NonCtrl, self.content@) >= 1);
                }
                let _ = self.chop_class(CharClass::NonCtrl);
            } else {
                proof {
                    lemma_drop_ws_head(prev);
                }
                break ;
            }
        }
        if self.content.len() == 0 {
            return None;
        }
        let c0 = *vstd::slice::slice_index_get(self.content, 0);
        if crate::text::is_digit_char(c0) {
            Some(self.chop_class(CharClass::Digit))
        } else if is_alpha_char(c0) {
            Some(self.chop_class(CharClass::Name))
        } else {
            Some(self.chop(1))
        }
    }

    /// Whether the scanner has consumed all its text.
    pub fn is_empty(&self) -> (r: bool)
        ensures
            r == (self.content@.len() == 0),
    {
        self.content.len() == 0
    }
}

} // verus!
