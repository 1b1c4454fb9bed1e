//! Generics of the borrowing derivations: one more lifetime, which every
//! existing lifetime outlives.
use vstd::prelude::*;
use crate::token::{Tok, Token, toks, push_all};

verus! {

/// A lifetime parameter with the lifetimes it must outlive, all named
/// without their leading quote.
#[derive(Debug, PartialEq, Eq)]
pub struct LifetimeDef {
    pub lifetime: String,
    pub bounds: Vec<String>,
}

/// A generic parameter; type and const parameters are kept as written.
#[derive(Debug, PartialEq, Eq)]
pub enum GenericParam {
    Lifetime(LifetimeDef),
    Type(Vec<Token>),
    Const(Vec<Token>),
}

/// The generic parameters of a declaration, in order.
#[derive(Debug, PartialEq, Eq)]
pub struct Generics {
    pub params: Vec<GenericParam>,
}

/// The value of a generic parameter.
pub enum Param {
    Lifetime(Seq<char>, Seq<Seq<char>>),
    Type(Seq<Tok>),
    Const(Seq<Tok>),
}

/// The value of a generic parameter.
pub open spec fn param_view(p: GenericParam) -> Param {
    match p {
        GenericParam::Lifetime(d) => Param::Lifetime(d.lifetime@, d.bounds.deep_view()),
        GenericParam::Type(t) => Param::Type(toks(t@)),
        GenericParam::Const(t) => Param::Const(toks(t@)),
    }
}

/// The values of the parameters.
pub open spec fn params_view(g: &Generics) -> Seq<Param> {
    g.params@.map_values(|p: GenericParam| param_view(p))
}

/// The name of the added lifetime, which user code cannot already hold.
pub open spec fn ref_name() -> Seq<char> {
    "_frunk_ref_"@
}

/// A parameter as the extension leaves it: a lifetime gains the bound of the
/// added lifetime, anything else is unchanged.
pub open spec fn bound_to_ref(p: Param) -> Param {
    match p {
        Param::Lifetime(n, bs) => Param::Lifetime(n, bs.push(ref_name())),
        _ => p,
    }
}

/// The extended parameters: each bound as `bound_to_ref` says, then the added lifetime.
pub open spec fn extend_params(ps: Seq<Param>) -> Seq<Param> {
    ps.map_values(|p: Param| bound_to_ref(p)).push(Param::Lifetime(ref_name(), seq![]))
}

/// The lifetime parameters, with their bounds, in order.
pub open spec fn lifetimes(ps: Seq<Param>) -> Seq<(Seq<char>, Seq<Seq<char>>)>
    decreases ps.len(),
{
    if ps.len() == 0 {
        seq![]
    } else {
        match ps.last() {
            Param::Lifetime(n, bs) => lifetimes(ps.drop_last()).push((n, bs)),
            _ => lifetimes(ps.drop_last()),
        }
    }
}

/// The type and const parameters, in order.
pub open spec fn other_params(ps: Seq<Param>) -> Seq<Param>
    decreases ps.len(),
{
    if ps.len() == 0 {
        seq![]
    } else {
        match ps.last() {
            Param::Lifetime(_, _) => other_params(ps.drop_last()),
            _ => other_params(ps.drop_last()).push(ps.last()),
        }
    }
}

/// Extending the parameters adds exactly one lifetime, the last one; every
/// existing lifetime keeps its name, its place and its bounds and gains the
/// bound of the added lifetime; type and const parameters are untouched.
pub proof fn lemma_extend_params(ps: Seq<Param>)
    ensures
        lifetimes(extend_params(ps)).len() == lifetimes(ps).len() + 1,
        lifetimes(extend_params(ps)) == lifetimes(ps).map_values(
            |l: (Seq<char>, Seq<Seq<char>>)| (l.0, l.1.push(ref_name())),
        ).push((ref_name(), Seq::<Seq<char>>::empty())),
        other_params(extend_params(ps)) == other_params(ps),
    decreases ps.len(),
{
    let m = ps.map_values(|p: Param| bound_to_ref(p));
    let e = extend_params(ps);
    assert(e.drop_last() == m);
    lemma_mapped(ps);
    assert(lifetimes(e) == lifetimes(m).push((ref_name(), Seq::<Seq<char>>::empty())));
    assert(other_params(e) == other_params(m));
}

/// `lifetimes` and `other_params` of the parameters mapped by `bound_to_ref`.
proof fn lemma_mapped(ps: Seq<Param>)
    ensures
        lifetimes(ps.map_values(|p: Param| bound_to_ref(p))) == lifetimes(ps).map_values(
            |l: (Seq<char>, Seq<Seq<char>>)| (l.0, l.1.push(ref_name())),
        ),
        other_params(ps.map_values(|p: Param| bound_to_ref(p))) == other_params(ps),
    decreases ps.len(),
{
    let m = ps.map_values(|p: Param| bound_to_ref(p));
    if ps.len() == 0 {
        assert(lifetimes(ps).map_values(
            |l: (Seq<char>, Seq<Seq<char>>)| (l.0, l.1.push(ref_name())),
        ) =~= seq![]);
    } else {
        lemma_mapped(ps.drop_last());
        assert(m.drop_last() =~= ps.drop_last().map_values(|p: Param| bound_to_ref(p)));
        assert(m.last() == bound_to_ref(ps.last()));
        let f = |l: (Seq<char>, Seq<Seq<char>>)| (l.0, l.1.push(ref_name()));
        match ps.last() {
            Param::Lifetime(n, bs) => {
                assert(lifetimes(ps).map_values(f) =~= lifetimes(ps.drop_last()).map_values(f).push(
                    (n, bs.push(ref_name())),
                ));
            },
            _ => {},
        }
    }
}

/// A copy of the strings.
fn copy_strings(v: &Vec<String>) -> (r: Vec<String>)
    ensures
        r.deep_view() == v.deep_view(),
{
    let mut out: Vec<String> = Vec::new();
    let mut i: usize = 0;
    while i < v.len()
        invariant
            i <= v.len(),
            out.deep_view() == v.deep_view().subrange(0, i as int),
        decreases v.len() - i,
    {
        let ghost prev = out.deep_view();
        let c = v[i].clone();
        out.push(c);
        assert(out.deep_view() =~= prev.push(c@));
        i += 1;
        assert(out.deep_view() =~= v.deep_view().subrange(0, i as int));
    }
    assert(v.deep_view().subrange(0, v.len() as int) =~= v.deep_view());
    out
}

/// A copy of the tokens.
fn copy_tokens(v: &Vec<Token>) -> (r: Vec<Token>)
    ensures
        toks(r@) == toks(v@),
{
    let mut out: Vec<Token> = Vec::new();
    push_all(&mut out, v);
    assert(toks(out@) =~= toks(v@));
    out
}

/// The generics of the borrowing derivations: each lifetime parameter gains the
/// bound `'_frunk_ref_`, and `'_frunk_ref_` itself is appended as the last
/// parameter, without bounds.
pub fn ref_generics(generics: &Generics) -> (r: Generics)
    ensures
        params_view(&r) == extend_params(params_view(generics)),
{
    let ghost ps = params_view(generics);
    let mut out: Vec<GenericParam> = Vec::new();
    let mut i: usize = 0;
    while i < generics.params.len()
        invariant
            i <= generics.params@.len(),
            ps == params_view(generics),
            out@.len() == i,
            forall|k: int| 0 <= k < i ==> param_view(#[trigger] out@[k]) == bound_to_ref(ps[k]),
        decreases generics.params@.len() - i,
    {
        let p = match &generics.params[i] {
            GenericParam::Lifetime(d) => {
                let mut bounds = copy_strings(&d.bounds);
                let ghost prev = bounds.deep_view();
                bounds.push(String::from_str("_frunk_ref_"));
                assert(bounds.deep_view() =~= prev.push(ref_name()));
                GenericParam::Lifetime(LifetimeDef { lifetime: d.lifetime.clone(), bounds })
            },
            GenericParam::Type(t) => GenericParam::Type(copy_tokens(t)),
            GenericParam::Const(t) => GenericParam::Const(copy_tokens(t)),
        };
        out.push(p);
        i += 1;
    }
    let no_bounds: Vec<String> = Vec::new();
    assert(no_bounds.deep_view() =~= Seq::<Seq<char>>::empty());
    let added = GenericParam::Lifetime(
        LifetimeDef { lifetime: String::from_str("_frunk_ref_"), bounds: no_bounds },
    );
    out.push(added);
    let r = Generics { params: out };
    assert(params_view(&r) =~= extend_params(ps));
    r
}

} // verus!
