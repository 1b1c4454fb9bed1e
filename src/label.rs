//! Type-level labels: a name becomes a tuple of the marker types that stand
//! for its characters.
use vstd::prelude::*;
use vstd::string::StrSliceExecFns;
use crate::encode::{
    encode, encode_as_ident, is_escaped, is_letter, plain_token, open_escape, close_escape,
    hex_tokens, digits, lemma_digits_hex, lemma_digits_injective,
};
use crate::token::{
    Tok, Token, toks, sep, core_path, punct, push_core_path, push_sep, push_punct, lemma_toks_concat,
};

verus! {

/// The identifier tokens that encode a name, character by character.
pub open spec fn label_tokens(s: Seq<char>) -> Seq<Seq<char>>
    decreases s.len(),
{
    if s.len() == 0 {
        seq![]
    } else {
        encode(s[0]) + label_tokens(s.drop_first())
    }
}

/// `::frunk_core::labelled::chars::<t>`, the marker type of one token.
pub open spec fn char_path(t: Seq<char>) -> Seq<Tok> {
    core_path("labelled"@, "chars"@) + sep() + seq![Tok::Ident(t)]
}

/// The marker types of the tokens, separated by commas.
pub open spec fn char_paths(ts: Seq<Seq<char>>) -> Seq<Tok>
    decreases ts.len(),
{
    if ts.len() == 0 {
        seq![]
    } else if ts.len() == 1 {
        char_path(ts[0])
    } else {
        char_path(ts[0]) + seq![punct(',')] + char_paths(ts.drop_first())
    }
}

/// The label type of a name: the tuple of the marker types of its tokens.
pub open spec fn label_type(s: Seq<char>) -> Seq<Tok> {
    seq![Tok::Open(crate::token::Delim::Paren)] + char_paths(label_tokens(s)) + seq![
        Tok::Close(crate::token::Delim::Paren),
    ]
}

/// Encoding distributes over concatenation of names.
pub proof fn lemma_label_tokens_concat(a: Seq<char>, b: Seq<char>)
    ensures
        label_tokens(a + b) == label_tokens(a) + label_tokens(b),
    decreases a.len(),
{
    if a.len() == 0 {
        assert(a + b == b);
    } else {
        assert((a + b).drop_first() == a.drop_first() + b);
        lemma_label_tokens_concat(a.drop_first(), b);
    }
}

/// Every character is encoded by at least one token, and no token is empty.
pub proof fn lemma_encode_nonempty(c: char)
    ensures
        encode(c).len() >= 1,
        forall|i: int| 0 <= i < encode(c).len() ==> (#[trigger] encode(c)[i]).len() >= 1,
{
    lemma_digits_hex(c as nat, 16);
}

/// The tokens between the escape markers are hexadecimal-digit tokens, of one or two characters.
proof fn lemma_hex_tokens_short(n: nat)
    ensures
        hex_tokens(n).len() == digits(n, 16).len(),
        forall|i: int|
            0 <= i < hex_tokens(n).len() ==> (#[trigger] hex_tokens(n)[i]).len() <= 2
                && hex_tokens(n)[i] == plain_token(digits(n, 16)[i]),
{
    lemma_digits_hex(n, 16);
}

/// The encoding is a prefix code: the first character of two equal token
/// sequences is the same, and so is the rest.
proof fn lemma_encode_prefix(c: char, d: char, x: Seq<Seq<char>>, y: Seq<Seq<char>>)
    requires
        encode(c) + x == encode(d) + y,
    ensures
        c == d,
        x == y,
{
    let s = encode(c) + x;
    let t = encode(d) + y;
    lemma_encode_nonempty(c);
    lemma_encode_nonempty(d);
    assert(s[0] == encode(c)[0]);
    assert(t[0] == encode(d)[0]);
    if is_letter(c) || is_escaped(c) {
        assert(s[0] == plain_token(c));
        assert(plain_token(c).last() == c);
        if is_letter(d) || is_escaped(d) {
            assert(t[0] == plain_token(d));
        } else {
            assert(t[0] == open_escape());
            assert(open_escape().len() == 3);
        }
    } else {
        assert(s[0] == open_escape());
        if is_letter(d) || is_escaped(d) {
            assert(t[0] == plain_token(d));
            assert(open_escape().len() == 3);
        } else {
            let hc = hex_tokens(c as nat);
            let hd = hex_tokens(d as nat);
            lemma_hex_tokens_short(c as nat);
            lemma_hex_tokens_short(d as nat);
            if hc.len() < hd.len() {
                assert(s[1 + hc.len() as int] == close_escape());
                assert(t[1 + hc.len() as int] == hd[hc.len() as int]);
            } else if hd.len() < hc.len() {
                assert(t[1 + hd.len() as int] == close_escape());
                assert(s[1 + hd.len() as int] == hc[hd.len() as int]);
            } else {
                let dc = digits(c as nat, 16);
                let dd = digits(d as nat, 16);
                assert forall|i: int| 0 <= i < dc.len() implies dc[i] == dd[i] by {
                    assert(s[1 + i] == hc[i]);
                    assert(t[1 + i] == hd[i]);
                    assert(hc[i].last() == dc[i]);
                    assert(hd[i].last() == dd[i]);
                }
                assert(dc =~= dd);
                lemma_digits_injective(c as nat, d as nat, 16);
            }
        }
    }
    assert(encode(c) == encode(d));
    assert(x =~= s.subrange(encode(c).len() as int, s.len() as int));
    assert(y =~= t.subrange(encode(d).len() as int, t.len() as int));
}

/// Distinct names have distinct token sequences.
pub proof fn lemma_label_tokens_injective(a: Seq<char>, b: Seq<char>)
    requires
        label_tokens(a) == label_tokens(b),
    ensures
        a == b,
    decreases a.len(),
{
    if a.len() == 0 && b.len() == 0 {
        assert(a =~= b);
    } else if a.len() == 0 {
        lemma_encode_nonempty(b[0]);
    } else if b.len() == 0 {
        lemma_encode_nonempty(a[0]);
    } else {
        lemma_encode_prefix(a[0], b[0], label_tokens(a.drop_first()), label_tokens(b.drop_first()));
        lemma_label_tokens_injective(a.drop_first(), b.drop_first());
        assert(a =~= seq![a[0]] + a.drop_first());
        assert(b =~= seq![b[0]] + b.drop_first());
    }
}

proof fn lemma_char_path_len(t: Seq<char>)
    ensures
        char_path(t).len() == 12,
        char_path(t)[11] == Tok::Ident(t),
{
}

/// Distinct token sequences have distinct lists of marker types.
proof fn lemma_char_paths_injective(x: Seq<Seq<char>>, y: Seq<Seq<char>>)
    requires
        char_paths(x) == char_paths(y),
    ensures
        x == y,
    decreases x.len(),
{
    let p = char_paths(x);
    if x.len() == 0 || y.len() == 0 {
        if x.len() != 0 {
            lemma_char_path_len(x[0]);
            assert(p.len() >= 12);
        }
        if y.len() != 0 {
            lemma_char_path_len(y[0]);
            assert(p.len() >= 12);
        }
        assert(x =~= y);
    } else {
        lemma_char_path_len(x[0]);
        lemma_char_path_len(y[0]);
        assert(p[11] == Tok::Ident(x[0]));
        assert(p[11] == Tok::Ident(y[0]));
        if x.len() == 1 || y.len() == 1 {
            assert(x.len() == 1 && y.len() == 1) by {
                if x.len() != 1 {
                    assert(p.len() > 12);
                }
                if y.len() != 1 {
                    assert(p.len() > 12);
                }
            }
            assert(x =~= y);
        } else {
            assert(char_paths(x.drop_first()) =~= p.subrange(13, p.len() as int));
            assert(char_paths(y.drop_first()) =~= p.subrange(13, p.len() as int));
            lemma_char_paths_injective(x.drop_first(), y.drop_first());
            assert(x =~= seq![x[0]] + x.drop_first());
            assert(y =~= seq![y[0]] + y.drop_first());
        }
    }
}

/// Distinct names have distinct label types.
pub proof fn lemma_label_injective(a: Seq<char>, b: Seq<char>)
    requires
        a != b,
    ensures
        label_type(a) != label_type(b),
{
    if label_type(a) == label_type(b) {
        let la = label_type(a);
        let n = la.len();
        assert(char_paths(label_tokens(a)) =~= la.subrange(1, n - 1));
        assert(char_paths(label_tokens(b)) =~= label_type(b).subrange(1, n - 1));
        lemma_char_paths_injective(label_tokens(a), label_tokens(b));
        lemma_label_tokens_injective(a, b);
    }
}

/// The identifier tokens that encode `name`, character by character.
pub fn label_idents(name: &str) -> (r: Vec<String>)
    ensures
        r.deep_view() == label_tokens(name@),
{
    let n = name.unicode_len();
    let mut out: Vec<String> = Vec::new();
    let mut i: usize = 0;
    while i < n
        invariant
            n == name@.len(),
            i <= n,
            out.deep_view() == label_tokens(name@.subrange(0, i as int)),
        decreases n - i,
    {
        let c = name.get_char(i);
        let mut enc = encode_as_ident(&c);
        let ghost prev = out.deep_view();
        let ghost e = enc.deep_view();
        out.append(&mut enc);
        proof {
            assert(out.deep_view() =~= prev + e);
            let head = name@.subrange(0, i as int);
            assert(name@.subrange(0, i + 1) =~= head + seq![c]);
            lemma_label_tokens_concat(head, seq![c]);
            assert(seq![c].drop_first() =~= Seq::<char>::empty());
            assert(seq![c][0] == c);
            assert(label_tokens(seq![c].drop_first()) == Seq::<Seq<char>>::empty());
            assert(label_tokens(seq![c]) =~= encode(c));
        }
        i += 1;
    }
    assert(name@.subrange(0, n as int) =~= name@);
    out
}

/// Appends `::frunk_core::labelled::chars::<t>`.
fn push_char_path(out: &mut Vec<Token>, t: &String)
    ensures
        toks(final(out)@) == toks(old(out)@) + char_path(t@),
{
    push_core_path(out, "labelled", "chars");
    push_sep(out);
    let ghost prev = out@;
    let tok = Token::Ident(t.clone());
    out.push(tok);
    proof {
        assert(out@ == prev + seq![tok]);
        lemma_toks_concat(prev, seq![tok]);
        assert(toks(seq![tok]) =~= seq![Tok::Ident(t@)]);
    }
}

/// The type-level label of `name`: a tuple of the marker types
/// `::frunk_core::labelled::chars::*` of its tokens, so that `first_name`
/// becomes `(f, i, r, s, t, __, n, a, m, e)`.
pub fn build_label_type(name: &str) -> (r: Vec<Token>)
    ensures
        toks(r@) == label_type(name@),
{
    let ts = label_idents(name);
    let ghost all = ts.deep_view();
    let mut out: Vec<Token> = Vec::new();
    out.push(Token::Open(crate::token::Delim::Paren));
    assert(toks(out@) =~= seq![Tok::Open(crate::token::Delim::Paren)]);
    let n = ts.len();
    let mut i: usize = 0;
    while i < n
        invariant
            n == ts.len(),
            all == ts.deep_view(),
            i <= n,
            toks(out@) == seq![Tok::Open(crate::token::Delim::Paren)] + char_paths(all.subrange(0, i as int)),
        decreases n - i,
    {
        proof {
            lemma_char_paths_snoc(all.subrange(0, i as int), all[i as int]);
            assert(all.subrange(0, i + 1) =~= all.subrange(0, i as int).push(all[i as int]));
        }
        if i > 0 {
            push_punct(&mut out, ',');
        }
        push_char_path(&mut out, &ts[i]);
        i += 1;
    }
    assert(all.subrange(0, n as int) =~= all);
    let ghost prev = out@;
    let close = Token::Close(crate::token::Delim::Paren);
    out.push(close);
    proof {
        assert(out@ == prev + seq![close]);
        lemma_toks_concat(prev, seq![close]);
        assert(toks(out@) =~= label_type(name@));
    }
    out
}

/// Appending a token to the list appends its marker type, after a comma where
/// the list was not empty.
proof fn lemma_char_paths_snoc(ts: Seq<Seq<char>>, t: Seq<char>)
    ensures
        char_paths(ts.push(t)) == (if ts.len() == 0 {
            char_path(t)
        } else {
            char_paths(ts) + seq![punct(',')] + char_path(t)
        }),
    decreases ts.len(),
{
    if ts.len() == 0 {
        assert(ts.push(t) =~= seq![t]);
    } else {
        assert(ts.push(t).drop_first() =~= ts.drop_first().push(t));
        lemma_char_paths_snoc(ts.drop_first(), t);
        if ts.len() == 1 {
            assert(ts.drop_first() =~= Seq::<Seq<char>>::empty());
        }
        assert(char_paths(ts.push(t)) =~= (char_paths(ts) + seq![punct(',')] + char_path(t)));
    }
}

} // verus!
