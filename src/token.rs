//! The token model of generated code: a flat sequence of tokens in which a
//! delimited group is written as an `Open` token, its contents, and a `Close` token.
use vstd::prelude::*;

verus! {

/// The bracket kind of a delimited group.
#[derive(Clone, Copy, Debug, PartialEq, Eq, Structural)]
pub enum Delim {
    Paren,
    Brace,
    Bracket,
    /// A group without visible brackets.
    Invisible,
}

/// One token of generated code.
#[derive(Debug, PartialEq, Eq)]
pub enum Token {
    /// An identifier or keyword.
    Ident(String),
    /// A punctuation character; the flag is set when it is joined to the next
    /// punctuation character (the first `:` of `::`).
    Punct(char, bool),
    /// A lifetime, named without its leading quote.
    Lifetime(String),
    /// A literal, as it is written in source.
    Literal(String),
    /// A string literal that holds these characters.
    Str(String),
    Open(Delim),
    Close(Delim),
}

/// The mathematical value of a `Token`.
pub enum Tok {
    Ident(Seq<char>),
    Punct(char, bool),
    Lifetime(Seq<char>),
    Literal(Seq<char>),
    Str(Seq<char>),
    Open(Delim),
    Close(Delim),
}

impl View for Token {
    type V = Tok;

    open spec fn view(&self) -> Tok {
        match self {
            Token::Ident(s) => Tok::Ident(s@),
            Token::Punct(c, j) => Tok::Punct(*c, *j),
            Token::Lifetime(s) => Tok::Lifetime(s@),
            Token::Literal(s) => Tok::Literal(s@),
            Token::Str(s) => Tok::Str(s@),
            Token::Open(d) => Tok::Open(*d),
            Token::Close(d) => Tok::Close(*d),
        }
    }
}

/// The value of a sequence of tokens.
pub open spec fn toks(v: Seq<Token>) -> Seq<Tok> {
    v.map_values(|t: Token| t@)
}

/// `::`
pub open spec fn sep() -> Seq<Tok> {
    seq![Tok::Punct(':', true), Tok::Punct(':', false)]
}

/// `::frunk_core::<module>::<item>`
pub open spec fn core_path(module: Seq<char>, item: Seq<char>) -> Seq<Tok> {
    sep() + seq![Tok::Ident("frunk_core"@)] + sep() + seq![Tok::Ident(module)] + sep() + seq![
        Tok::Ident(item),
    ]
}

/// A lone punctuation character.
pub open spec fn punct(c: char) -> Tok {
    Tok::Punct(c, false)
}

/// The value of a concatenation is the concatenation of the values.
pub proof fn lemma_toks_concat(a: Seq<Token>, b: Seq<Token>)
    ensures
        toks(a + b) == toks(a) + toks(b),
{
    assert(toks(a + b) =~= toks(a) + toks(b));
}

impl Token {
    /// A copy of this token with the same value.
    pub fn dup(&self) -> (r: Token)
        ensures
            r@ == self@,
    {
        match self {
            Token::Ident(s) => Token::Ident(s.clone()),
            Token::Punct(c, j) => Token::Punct(*c, *j),
            Token::Lifetime(s) => Token::Lifetime(s.clone()),
            Token::Literal(s) => Token::Literal(s.clone()),
            Token::Str(s) => Token::Str(s.clone()),
            Token::Open(d) => Token::Open(*d),
            Token::Close(d) => Token::Close(*d),
        }
    }
}

/// Appends a copy of `src` to `out`.
pub fn push_all(out: &mut Vec<Token>, src: &Vec<Token>)
    ensures
        toks(final(out)@) == toks(old(out)@) + toks(src@),
{
    let ghost start = toks(out@);
    let mut i: usize = 0;
    while i < src.len()
        invariant
            i <= src.len(),
            toks(out@) == start + toks(src@.subrange(0, i as int)),
        decreases src.len() - i,
    {
        let ghost prev = out@;
        let t = src[i].dup();
        out.push(t);
        i += 1;
        proof {
            assert(out@ == prev + seq![t]);
            lemma_toks_concat(prev, seq![t]);
            assert(src@.subrange(0, i as int) == src@.subrange(0, i - 1) + seq![src@[i - 1]]);
            lemma_toks_concat(src@.subrange(0, i - 1), seq![src@[i - 1]]);
        }
    }
    assert(src@.subrange(0, src.len() as int) == src@);
}

/// Appends one token.
pub fn push_tok(out: &mut Vec<Token>, t: Token)
    ensures
        toks(final(out)@) == toks(old(out)@) + seq![t@],
{
    let ghost prev = out@;
    let ghost tv = t@;
    out.push(t);
    assert(toks(out@) =~= toks(prev) + seq![tv]);
}

/// Appends an identifier.
pub fn push_ident(out: &mut Vec<Token>, s: &str)
    ensures
        toks(final(out)@) == toks(old(out)@) + seq![Tok::Ident(s@)],
{
    out.push(Token::Ident(String::from_str(s)));
    assert(toks(out@) == toks(old(out)@) + seq![Tok::Ident(s@)]);
}

/// Appends a lone punctuation character.
pub fn push_punct(out: &mut Vec<Token>, c: char)
    ensures
        toks(final(out)@) == toks(old(out)@) + seq![punct(c)],
{
    out.push(Token::Punct(c, false));
    assert(toks(out@) == toks(old(out)@) + seq![punct(c)]);
}

/// Appends `::`.
pub fn push_sep(out: &mut Vec<Token>)
    ensures
        toks(final(out)@) == toks(old(out)@) + sep(),
{
    out.push(Token::Punct(':', true));
    out.push(Token::Punct(':', false));
    assert(toks(out@) == toks(old(out)@) + sep());
}

/// Appends `::frunk_core::<module>::<item>`.
pub fn push_core_path(out: &mut Vec<Token>, module: &str, item: &str)
    ensures
        toks(final(out)@) == toks(old(out)@) + core_path(module@, item@),
{
    push_sep(out);
    push_ident(out, "frunk_core");
    push_sep(out);
    push_ident(out, module);
    push_sep(out);
    push_ident(out, item);
    assert(toks(out@) == toks(old(out)@) + core_path(module@, item@));
}

} // verus!
