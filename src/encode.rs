//! The encoding of characters as identifier tokens that the list library
//! declares at the type level, and the numerals that the encoding uses.
use vstd::prelude::*;

verus! {

/// The lower-case digit for a value below sixteen.
pub open spec fn digit_char(d: nat) -> char {
    if d < 10 {
        ((d + 48) as u8) as char
    } else {
        ((d + 87) as u8) as char
    }
}

/// The numeral of `n` in `base`, most significant digit first, without leading zeros.
pub open spec fn digits(n: nat, base: nat) -> Seq<char>
    decreases n,
    via digits_decreases
{
    if base < 2 || n < base {
        seq![digit_char(n)]
    } else {
        digits(n / base, base).push(digit_char(n % base))
    }
}

#[via_fn]
proof fn digits_decreases(n: nat, base: nat) {
    if !(base < 2 || n < base) {
        assert(n / base < n) by (nonlinear_arith)
            requires
                base >= 2,
                n >= base,
        ;
    }
}

/// One of the 52 ASCII letters, which stand for themselves.
pub open spec fn is_letter(c: char) -> bool {
    ('a' <= c && c <= 'z') || ('A' <= c && c <= 'Z')
}

/// The underscore and the ten ASCII digits, which take an underscore in front.
pub open spec fn is_escaped(c: char) -> bool {
    c == '_' || ('0' <= c && c <= '9')
}

/// A lower-case hexadecimal digit.
pub open spec fn is_hex_digit(c: char) -> bool {
    ('0' <= c && c <= '9') || ('a' <= c && c <= 'f')
}

/// The token of a letter, digit or underscore.
pub open spec fn plain_token(c: char) -> Seq<char> {
    if is_letter(c) {
        seq![c]
    } else {
        seq!['_', c]
    }
}

/// The token that opens the escape of another character.
pub open spec fn open_escape() -> Seq<char> {
    seq!['_', 'u', 'c']
}

/// The token that closes the escape of another character.
pub open spec fn close_escape() -> Seq<char> {
    seq!['u', 'c', '_']
}

/// The tokens of the hexadecimal digits of `n`.
pub open spec fn hex_tokens(n: nat) -> Seq<Seq<char>> {
    digits(n, 16).map_values(|d: char| plain_token(d))
}

/// The tokens that encode one character.
pub open spec fn encode(c: char) -> Seq<Seq<char>> {
    if is_letter(c) || is_escaped(c) {
        seq![plain_token(c)]
    } else {
        seq![open_escape()] + hex_tokens(c as nat) + seq![close_escape()]
    }
}

proof fn lemma_div_smaller(n: nat, base: nat)
    requires
        2 <= base <= n,
    ensures
        n / base < n,
        n == (n / base) * base + n % base,
        n % base < base,
{
    assert(n / base < n) by (nonlinear_arith)
        requires
            base >= 2,
            n >= base,
    ;
    assert(n == (n / base) * base + n % base) by (nonlinear_arith)
        requires
            base >= 2,
    ;
}

proof fn lemma_digit_char_value(d: nat)
    requires
        d < 16,
    ensures
        digit_char(d) as u32 == (if d < 10 { d + 48 } else { d + 87 }),
{
}

/// Every digit of a numeral in a base up to sixteen is a hexadecimal digit.
pub proof fn lemma_digits_hex(n: nat, base: nat)
    requires
        2 <= base <= 16,
    ensures
        digits(n, base).len() >= 1,
        forall|i: int| 0 <= i < digits(n, base).len() ==> is_hex_digit(#[trigger] digits(n, base)[i]),
    decreases n,
{
    if n >= base {
        lemma_div_smaller(n, base);
        lemma_digits_hex(n / base, base);
        assert(digits(n, base) == digits(n / base, base).push(digit_char(n % base)));
        lemma_digit_char_value(n % base);
    } else {
        lemma_digit_char_value(n);
    }
}

/// Distinct numbers have distinct numerals.
pub proof fn lemma_digits_injective(n: nat, m: nat, base: nat)
    requires
        2 <= base <= 16,
        digits(n, base) == digits(m, base),
    ensures
        n == m,
    decreases n,
{
    lemma_digits_hex(n / base, base);
    lemma_digits_hex(m / base, base);
    if n < base && m < base {
        assert(digits(n, base) == seq![digit_char(n)]);
        assert(digits(m, base) == seq![digit_char(m)]);
        assert(digits(n, base)[0] == digit_char(n));
        assert(digits(m, base)[0] == digit_char(m));
        lemma_digit_char_value(n);
        lemma_digit_char_value(m);
    } else if n >= base && m >= base {
        lemma_div_smaller(n, base);
        lemma_div_smaller(m, base);
        let a = digits(n, base);
        let b = digits(m, base);
        assert(a.drop_last() == digits(n / base, base));
        assert(b.drop_last() == digits(m / base, base));
        assert(a.last() == b.last());
        lemma_digit_char_value(n % base);
        lemma_digit_char_value(m % base);
        lemma_digits_injective(n / base, m / base, base);
    } else if n < base {
        lemma_div_smaller(m, base);
        assert(digits(m, base) == digits(m / base, base).push(digit_char(m % base)));
        assert(digits(n, base) == seq![digit_char(n)]);
        assert(digits(n, base).len() != digits(m, base).len());
    } else {
        lemma_div_smaller(n, base);
        assert(digits(n, base) == digits(n / base, base).push(digit_char(n % base)));
        assert(digits(m, base) == seq![digit_char(m)]);
        lemma_digits_hex(n / base, base);
        assert(digits(n, base).len() >= 2);
        assert(digits(m, base).len() == 1);
    }
}

/// The digit character for a value below sixteen.
pub fn digit_of(d: u64) -> (r: char)
    requires
        d < 16,
    ensures
        r == digit_char(d as nat),
{
    let b: u8 = d as u8;
    if b < 10 {
        (b + 48) as char
    } else {
        (b + 87) as char
    }
}

/// The numeral of `n` in `base`, most significant digit first.
pub fn numeral(n: u64, base: u64) -> (r: Vec<char>)
    requires
        2 <= base <= 16,
    ensures
        r@ == digits(n as nat, base as nat),
{
    let mut m: u64 = n;
    let mut out: Vec<char> = Vec::new();
    while m >= base
        invariant
            2 <= base <= 16,
            digits(n as nat, base as nat) == digits(m as nat, base as nat) + out@,
        decreases m,
    {
        let d = digit_of(m % base);
        let ghost prev = out@;
        out.insert(0, d);
        assert(digits(m as nat, base as nat) == digits((m / base) as nat, base as nat).push(d));
        assert(out@ == seq![d] + prev);
        assert(digits((m / base) as nat, base as nat) + out@ =~= digits(m as nat, base as nat)
            + prev);
        m = m / base;
    }
    let d = digit_of(m);
    let ghost prev = out@;
    out.insert(0, d);
    assert(out@ =~= digits(m as nat, base as nat) + prev);
    out
}

/// Relies on char's `ToString`: the string that holds just this character.
#[verifier::external_body]
fn char_string(c: char) -> (r: String)
    ensures
        r@ == seq![c],
{
    c.to_string()
}

/// The string of the given characters.
pub fn chars_string(cs: &Vec<char>) -> (r: String)
    ensures
        r@ == cs@,
{
    let mut s = String::new();
    let mut i: usize = 0;
    while i < cs.len()
        invariant
            i <= cs.len(),
            s@ == cs@.subrange(0, i as int),
        decreases cs.len() - i,
    {
        let t = char_string(cs[i]);
        s = s.concat(t.as_str());
        i += 1;
        assert(s@ =~= cs@.subrange(0, i as int));
    }
    assert(cs@.subrange(0, cs.len() as int) =~= cs@);
    s
}

/// The token of a letter, digit or underscore.
fn plain_ident(c: char) -> (r: String)
    ensures
        r@ == plain_token(c),
{
    if ('a' <= c && c <= 'z') || ('A' <= c && c <= 'Z') {
        char_string(c)
    } else {
        let s = String::from_str("_");
        let t = char_string(c);
        proof {
            reveal_strlit("_");
        }
        let r = s.concat(t.as_str());
        assert(r@ =~= plain_token(c));
        r
    }
}

/// The identifier tokens that encode `c`: a letter stands for itself, a digit or
/// underscore takes an underscore in front, and any other character becomes
/// the tokens of its hexadecimal scalar value between `_uc` and `uc_`.
pub fn encode_as_ident(c: &char) -> (r: Vec<String>)
    ensures
        r.deep_view() == encode(*c),
{
    let c = *c;
    if ('a' <= c && c <= 'z') || ('A' <= c && c <= 'Z') || c == '_' || ('0' <= c && c <= '9') {
        let r = vec![plain_ident(c)];
        assert(r.deep_view() =~= encode(c));
        r
    } else {
        let hex = numeral(c as u32 as u64, 16);
        proof {
            reveal_strlit("_uc");
            reveal_strlit("uc_");
        }
        let mut out: Vec<String> = Vec::new();
        out.push(String::from_str("_uc"));
        assert("_uc"@ =~= open_escape());
        assert("uc_"@ =~= close_escape());
        assert(out.deep_view() =~= seq![open_escape()] + hex_tokens(c as nat).subrange(0, 0));
        let mut i: usize = 0;
        while i < hex.len()
            invariant
                i <= hex.len(),
                hex@ == digits(c as nat, 16),
                out.deep_view() == seq![open_escape()] + hex_tokens(c as nat).subrange(0, i as int),
            decreases hex.len() - i,
        {
            let t = plain_ident(hex[i]);
            let ghost prev = out.deep_view();
            out.push(t);
            assert(out.deep_view() =~= prev.push(t@));
            i += 1;
            assert(out.deep_view() =~= seq![open_escape()] + hex_tokens(c as nat).subrange(0, i as int));
        }
        let ghost prev = out.deep_view();
        out.push(String::from_str("uc_"));
        assert(out.deep_view() =~= prev.push(close_escape()));
        assert(hex_tokens(c as nat).subrange(0, hex.len() as int) =~= hex_tokens(c as nat));
        assert(out.deep_view() =~= encode(c));
        out
    }
}

} // verus!
