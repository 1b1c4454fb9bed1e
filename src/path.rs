//! Path types for chains of field accesses such as `a.b.c`.
use vstd::prelude::*;
use crate::hlist::{cons_type, hnil};
use crate::label::{build_label_type, label_type};
use crate::token::{Tok, Token, toks, core_path, punct, push_all, push_core_path, push_punct};

verus! {

/// The member named by a field access.
#[derive(Debug)]
pub enum Member {
    Named(String),
    Unnamed(u32),
}

/// The expressions a path can be read from: a field access on a base
/// expression, a path of `::`-separated segments, or anything else.
#[derive(Debug)]
pub enum PathExpr {
    Field(Box<PathExpr>, Member),
    Path(Vec<String>),
    Other,
}

/// Why an expression is not a path of field accesses.
#[derive(Clone, Copy, Debug, PartialEq, Eq, Structural)]
pub enum PathError {
    /// A field access by position, such as `a.0`.
    UnnamedMember,
    /// A name with more than one segment, such as `a::b`.
    QualifiedName,
    /// Neither a field access nor a name.
    UnsupportedExpr,
}

/// The nesting depth of field accesses.
pub open spec fn depth(e: &PathExpr) -> nat
    decreases e,
{
    match e {
        PathExpr::Field(base, _) => 1 + depth(base),
        _ => 0,
    }
}

/// The names of a field-access chain, the last access first and the base name last.
pub open spec fn path_names(e: &PathExpr) -> Result<Seq<Seq<char>>, PathError>
    decreases e,
{
    match e {
        PathExpr::Field(base, Member::Named(n)) => match path_names(base) {
            Ok(v) => Ok(seq![n@] + v),
            Err(x) => Err(x),
        },
        PathExpr::Field(_, Member::Unnamed(_)) => Err(PathError::UnnamedMember),
        PathExpr::Path(segs) => if segs@.len() == 1 {
            Ok(seq![segs@[0]@])
        } else {
            Err(PathError::QualifiedName)
        },
        PathExpr::Other => Err(PathError::UnsupportedExpr),
    }
}

/// `Path<HCons<label, inner>>`
pub open spec fn path_layer(label: Seq<Tok>, inner: Seq<Tok>) -> Seq<Tok> {
    core_path("path"@, "Path"@) + seq![punct('<')] + cons_type(label, inner) + seq![punct('>')]
}

/// The path type of names given innermost first: each name, from the first on,
/// wraps what was built so far, so that the last name is outermost.
pub open spec fn path_type(names: Seq<Seq<char>>) -> Seq<Tok>
    decreases names.len(),
{
    if names.len() == 0 {
        hnil()
    } else {
        path_layer(label_type(names.last()), path_type(names.drop_last()))
    }
}

/// The names of the field-access chain `e`, the last access first: `a.b.c`
/// gives `c`, `b`, `a`. A positional access, a qualified name, or another kind
/// of expression is refused.
pub fn find_idents_in_expr(e: &PathExpr) -> (r: Result<Vec<String>, PathError>)
    ensures
        match (r, path_names(e)) {
            (Ok(v), Ok(ns)) => v.deep_view() == ns,
            (Err(x), Err(y)) => x == y,
            _ => false,
        },
{
    let mut cur: &PathExpr = e;
    let mut v: Vec<String> = Vec::new();
    loop
        invariant
            match path_names(e) {
                Ok(ns) => path_names(cur) is Ok && ns == v.deep_view() + path_names(cur)->Ok_0,
                Err(x) => path_names(cur) == Err::<Seq<Seq<char>>, PathError>(x),
            },
        decreases depth(cur),
    {
        match cur {
            PathExpr::Field(base, m) => match m {
                Member::Named(n) => {
                    let ghost prev = v.deep_view();
                    v.push(n.clone());
                    assert(v.deep_view() =~= prev + seq![n@]);
                    proof {
                        if path_names(cur) is Ok {
                            assert(path_names(base) is Ok);
                            assert(path_names(cur)->Ok_0 == seq![n@] + path_names(base)->Ok_0);
                            assert(v.deep_view() + path_names(base)->Ok_0 =~= prev + path_names(
                                cur,
                            )->Ok_0);
                        }
                    }
                    cur = &**base;
                },
                Member::Unnamed(_) => {
                    return Err(PathError::UnnamedMember);
                },
            },
            PathExpr::Path(segs) => {
                if segs.len() != 1 {
                    return Err(PathError::QualifiedName);
                }
                let ghost prev = v.deep_view();
                v.push(segs[0].clone());
                assert(v.deep_view() =~= prev + seq![segs@[0]@]);
                return Ok(v);
            },
            PathExpr::Other => {
                return Err(PathError::UnsupportedExpr);
            },
        }
    }
}

/// `Path<HCons<label, inner>>`
fn wrap_path(label: &Vec<Token>, inner: &Vec<Token>) -> (r: Vec<Token>)
    ensures
        toks(r@) == path_layer(toks(label@), toks(inner@)),
{
    let mut out: Vec<Token> = Vec::new();
    push_core_path(&mut out, "path", "Path");
    push_punct(&mut out, '<');
    push_core_path(&mut out, "hlist", "HCons");
    push_punct(&mut out, '<');
    push_all(&mut out, label);
    push_punct(&mut out, ',');
    push_all(&mut out, inner);
    push_punct(&mut out, '>');
    push_punct(&mut out, '>');
    assert(toks(out@) =~= path_layer(toks(label@), toks(inner@)));
    out
}

/// The path type of the field-access chain `e`: `a.b.c` becomes
/// `Path<HCons<label(a), Path<HCons<label(b), Path<HCons<label(c), HNil>>>>>>`.
pub fn build_path_type(e: &PathExpr) -> (r: Result<Vec<Token>, PathError>)
    ensures
        match (r, path_names(e)) {
            (Ok(v), Ok(ns)) => toks(v@) == path_type(ns),
            (Err(x), Err(y)) => x == y,
            _ => false,
        },
{
    let names = match find_idents_in_expr(e) {
        Ok(v) => v,
        Err(x) => {
            return Err(x);
        },
    };
    let ghost ns = names.deep_view();
    let mut acc: Vec<Token> = Vec::new();
    push_core_path(&mut acc, "hlist", "HNil");
    assert(toks(acc@) =~= path_type(ns.subrange(0, 0)));
    let mut i: usize = 0;
    while i < names.len()
        invariant
            i <= names.len(),
            ns == names.deep_view(),
            toks(acc@) == path_type(ns.subrange(0, i as int)),
        decreases names.len() - i,
    {
        let label = build_label_type(names[i].as_str());
        acc = wrap_path(&label, &acc);
        i += 1;
        assert(ns.subrange(0, i as int).drop_last() =~= ns.subrange(0, i - 1));
    }
    assert(ns.subrange(0, names.len() as int) =~= ns);
    Ok(acc)
}

} // verus!
