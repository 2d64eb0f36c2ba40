//! Decimal text: rendering an integer as its decimal digit string and
//! reading one back. The injectivity of the rendering is what makes the
//! generated label names unique.

use vstd::prelude::*;

verus! {

/// The character for one digit value below ten.
pub open spec fn spec_digit(n: nat) -> char {
    if n == 0 {
        '0'
    } else if n == 1 {
        '1'
    } else if n == 2 {
        '2'
    } else if n == 3 {
        '3'
    } else if n == 4 {
        '4'
    } else if n == 5 {
        '5'
    } else if n == 6 {
        '6'
    } else if n == 7 {
        '7'
    } else if n == 8 {
        '8'
    } else {
        '9'
    }
}

/// The decimal digit string of `n`, most significant digit first, with
/// no leading zero except for `n == 0` itself.
pub open spec fn spec_dec(n: nat) -> Seq<char>
    decreases n,
{
    if n < 10 {
        seq![spec_digit(n)]
    } else {
        spec_dec(n / 10).push(spec_digit(n % 10))
    }
}

/// A single decimal digit as a string slice.
fn digit_str(d: u64) -> (r: &'static str)
    requires
        d < 10,
    ensures
        r@ == seq![spec_digit(d as nat)],
{
    proof {
        reveal_strlit("0");
        reveal_strlit("1");
        reveal_strlit("2");
        reveal_strlit("3");
        reveal_strlit("4");
        reveal_strlit("5");
        reveal_strlit("6");
        reveal_strlit("7");
        reveal_strlit("8");
        reveal_strlit("9");
    }
    if d == 0 {
        "0"
    } else if d == 1 {
        "1"
    } else if d == 2 {
        "2"
    } else if d == 3 {
        "3"
    } else if d == 4 {
        "4"
    } else if d == 5 {
        "5"
    } else if d == 6 {
        "6"
    } else if d == 7 {
        "7"
    } else if d == 8 {
        "8"
    } else {
        "9"
    }
}

/// Renders `n` in decimal.
pub fn dec_string(n: u64) -> (r: String)
    ensures
        r@ == spec_dec(n as nat),
    decreases n,
{
    if n < 10 {
        String::from_str(digit_str(n))
    } else {
        let mut s = dec_string(n / 10);
        s.append(digit_str(n % 10));
        proof {
            assert(s@ =~= spec_dec(n as nat));
        }
        s
    }
}

/// Every decimal string is non-empty.
pub proof fn lemma_dec_len(n: nat)
    ensures
        spec_dec(n).len() >= 1,
        n >= 10 ==> spec_dec(n).len() >= 2,
    decreases n,
{
    if n >= 10 {
        lemma_dec_len(n / 10);
    }
}

/// Distinct numbers render to distinct decimal strings.
pub proof fn lemma_dec_injective(a: nat, b: nat)
    requires
        spec_dec(a) == spec_dec(b),
    ensures
        a == b,
    decreases a + b,
{
    lemma_dec_len(a);
    lemma_dec_len(b);
    if a < 10 && b < 10 {
        assert(spec_dec(a) == seq![spec_digit(a)]);
        assert(spec_dec(b) == seq![spec_digit(b)]);
        assert(seq![spec_digit(a)][0] == spec_digit(a));
        assert(seq![spec_digit(b)][0] == spec_digit(b));
        assert(spec_digit(a) == spec_digit(b));
    } else if a < 10 && b >= 10 {
        assert(spec_dec(a).len() == 1);
        assert(spec_dec(b).len() >= 2);
    } else if a >= 10 && b < 10 {
        assert(spec_dec(a).len() >= 2);
        assert(spec_dec(b).len() == 1);
    } else {
        assert(spec_dec(a / 10).push(spec_digit((a % 10) as nat)).last() == spec_digit(
            (a % 10) as nat,
        ));
        assert(spec_dec(b / 10).push(spec_digit((b % 10) as nat)).last() == spec_digit(
            (b % 10) as nat,
        ));
        assert(spec_dec(a).last() == spec_dec(b).last());
        assert(spec_digit((a % 10) as nat) == spec_digit((b % 10) as nat));
        assert(a % 10 == b % 10);
        assert(spec_dec(a / 10).push(spec_digit((a % 10) as nat)).drop_last() =~= spec_dec(
            a / 10,
        ));
        assert(spec_dec(b / 10).push(spec_digit((b % 10) as nat)).drop_last() =~= spec_dec(
            b / 10,
        ));
        assert(spec_dec(a / 10) == spec_dec(b / 10));
        lemma_dec_injective(a / 10, b / 10);
        assert(a == (a / 10) * 10 + a % 10);
        assert(b == (b / 10) * 10 + b % 10);
    }
}

/// Appending distinct numbers to one common prefix gives distinct
/// strings.
pub proof fn lemma_prefix_dec_injective(p: Seq<char>, i: nat, j: nat)
    requires
        i != j,
    ensures
        p + spec_dec(i) != p + spec_dec(j),
{
    if p + spec_dec(i) == p + spec_dec(j) {
        assert((p + spec_dec(i)).subrange(p.len() as int, (p + spec_dec(i)).len() as int)
            =~= spec_dec(i));
        assert((p + spec_dec(j)).subrange(p.len() as int, (p + spec_dec(j)).len() as int)
            =~= spec_dec(j));
        assert(spec_dec(i) == spec_dec(j));
        lemma_dec_injective(i, j);
    }
}

/// The numeric value of a digit character; ten for any other character.
pub open spec fn spec_digit_val(c: char) -> nat {
    if c == '0' {
        0
    } else if c == '1' {
        1
    } else if c == '2' {
        2
    } else if c == '3' {
        3
    } else if c == '4' {
        4
    } else if c == '5' {
        5
    } else if c == '6' {
        6
    } else if c == '7' {
        7
    } else if c == '8' {
        8
    } else if c == '9' {
        9
    } else {
        10
    }
}

/// Whether every character of `s` is a decimal digit.
pub open spec fn spec_all_digits(s: Seq<char>) -> bool {
    forall|k: int| 0 <= k < s.len() ==> spec_digit_val(s[k]) < 10
}

/// The numeric value of a digit string, most significant digit first.
/// (A character that is no digit counts as zero; the callers guard
/// with [`spec_all_digits`].)
pub open spec fn spec_num(s: Seq<char>) -> nat
    decreases s.len(),
{
    if s.len() == 0 {
        0
    } else {
        spec_num(s.drop_last()) * 10 + spec_digit_val(s.last()) % 10
    }
}

/// What a numeric operand token denotes: its value, when the token is a
/// non-empty all-digit string whose value fits in 16 bits.
pub open spec fn spec_parse_u16(s: Seq<char>) -> Option<u16> {
    if s.len() > 0 && spec_all_digits(s) && spec_num(s) <= 0xffff {
        Some(spec_num(s) as u16)
    } else {
        None
    }
}

/// A prefix of a digit string never exceeds the whole string's value.
proof fn lemma_num_prefix(s: Seq<char>, k: int)
    requires
        0 <= k <= s.len(),
    ensures
        spec_num(s.take(k)) <= spec_num(s),
    decreases s.len() - k,
{
    if k < s.len() {
        assert(s.take(k + 1).drop_last() =~= s.take(k));
        assert(spec_num(s.take(k + 1)) == spec_num(s.take(k)) * 10 + spec_digit_val(
            s.take(k + 1).last(),
        ) % 10);
        lemma_num_prefix(s, k + 1);
    } else {
        assert(s.take(k) =~= s);
    }
}

/// Whether `c` is an ASCII decimal digit.
pub open spec fn spec_is_digit(c: char) -> bool {
    spec_digit_val(c) < 10
}

/// Digit test on one character.
pub fn is_digit_char(c: char) -> (r: bool)
    ensures
        r == spec_is_digit(c),
{
    c == '0' || c == '1' || c == '2' || c == '3' || c == '4' || c == '5' || c == '6' || c == '7'
        || c == '8' || c == '9'
}

/// Reads a decimal numeric operand: succeeds exactly on non-empty
/// all-digit tokens whose value fits in 16 bits.
pub fn parse_u16(t: &[char]) -> (r: Option<u16>)
    ensures
        r == spec_parse_u16(t@),
{
    let len = t.len();
    if len == 0 {
        return None;
    }
    let mut acc: u32 = 0;
    let mut k: usize = 0;
    while k < len
        invariant
            0 <= k <= len,
            len == t@.len(),
            spec_all_digits(t@.take(k as int)),
            acc == spec_num(t@.take(k as int)),
            acc <= 0xffff,
        decreases len - k,
    {
        let c = *vstd::slice::slice_index_get(t, k);
        if !is_digit_char(c) {
            proof {
                assert(spec_digit_val(t@[k as int]) >= 10);
            }
            return None;
        }
        let d: u32 = digit_val_char(c);
        acc = acc * 10 + d;
        proof {
            assert(t@.take(k + 1).drop_last() =~= t@.take(k as int));
            assert(t@.take(k + 1).last() == t@[k as int]);
        }
        if acc > 0xffff {
            proof {
                assert(spec_num(t@.take(k + 1)) > 0xffff);
                lemma_num_prefix(t@, k + 1);
            }
            return None;
        }
        k = k + 1;
    }
    proof {
        assert(t@.take(len as int) =~= t@);
    }
    Some(acc as u16)
}

/// Relies on `String::push` of std, which vstd leaves unspecified:
/// appends the given character to the end of the string.
#[verifier::external_body]
fn push_char(s: &mut String, c: char)
    ensures
        final(s)@ == old(s)@.push(c),
{
    s.push(c);
}

/// Copies a character slice into an owned string.
pub fn chars_to_string(t: &[char]) -> (r: String)
    ensures
        r@ == t@,
{
    let mut r = String::new();
    let mut k: usize = 0;
    while k < t.len()
        invariant
            0 <= k <= t@.len(),
            r@ == t@.take(k as int),
        decreases t@.len() - k,
    {
        let c = *vstd::slice::slice_index_get(t, k);
        push_char(&mut r, c);
        proof {
            assert(t@.take(k + 1).drop_last() =~= t@.take(k as int));
            assert(r@ =~= t@.take(k + 1));
        }
        k = k + 1;
    }
    proof {
        assert(t@.take(t@.len() as int) =~= t@);
    }
    r
}

/// The value of a digit character.
fn digit_val_char(c: char) -> (r: u32)
    requires
        spec_is_digit(c),
    ensures
        r == spec_digit_val(c),
{
    if c == '0' {
        0
    } else if c == '1' {
        1
    } else if c == '2' {
        2
    } else if c == '3' {
        3
    } else if c == '4' {
        4
    } else if c == '5' {
        5
    } else if c == '6' {
        6
    } else if c == '7' {
        7
    } else if c == '8' {
        8
    } else {
        9
    }
}

} // verus!
