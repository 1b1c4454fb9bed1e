//! Heterogeneous list types `HCons<H, T>` ending in `HNil`, and the matching
//! constructors and patterns.
use vstd::prelude::*;
use crate::token::{Delim, Tok, Token, toks, core_path, punct, push_all, push_core_path, push_ident, push_punct, lemma_toks_concat};

verus! {

/// The values of a sequence of fragments.
pub open spec fn frags(v: Seq<Vec<Token>>) -> Seq<Seq<Tok>> {
    v.map_values(|f: Vec<Token>| toks(f@))
}

/// `::frunk_core::hlist::HNil`
pub open spec fn hnil() -> Seq<Tok> {
    core_path("hlist"@, "HNil"@)
}

/// `::frunk_core::hlist::HCons`
pub open spec fn hcons() -> Seq<Tok> {
    core_path("hlist"@, "HCons"@)
}

/// `HCons<head, tail>`
pub open spec fn cons_type(head: Seq<Tok>, tail: Seq<Tok>) -> Seq<Tok> {
    hcons() + seq![punct('<')] + head + seq![punct(',')] + tail + seq![punct('>')]
}

/// `HCons { head: head, tail: tail }`
pub open spec fn cons_constr(head: Seq<Tok>, tail: Seq<Tok>) -> Seq<Tok> {
    hcons() + seq![Tok::Open(Delim::Brace), Tok::Ident("head"@), punct(':')] + head + seq![
        punct(','),
        Tok::Ident("tail"@),
        punct(':'),
    ] + tail + seq![Tok::Close(Delim::Brace)]
}

/// The list type of the items, first item outermost.
pub open spec fn hlist_type(items: Seq<Seq<Tok>>) -> Seq<Tok>
    decreases items.len(),
{
    if items.len() == 0 {
        hnil()
    } else {
        cons_type(items[0], hlist_type(items.drop_first()))
    }
}

/// The list constructor (or pattern) of the items, first item outermost.
pub open spec fn hlist_constr(items: Seq<Seq<Tok>>) -> Seq<Tok>
    decreases items.len(),
{
    if items.len() == 0 {
        hnil()
    } else {
        cons_constr(items[0], hlist_constr(items.drop_first()))
    }
}

/// The opening part of each cons layer, `HCons<item,`, in the order of the items.
pub open spec fn cons_openers(items: Seq<Seq<Tok>>) -> Seq<Tok>
    decreases items.len(),
{
    if items.len() == 0 {
        seq![]
    } else {
        hcons() + seq![punct('<')] + items[0] + seq![punct(',')] + cons_openers(items.drop_first())
    }
}

/// `n` closing angle brackets.
pub open spec fn closers(n: nat) -> Seq<Tok> {
    Seq::new(n, |i: int| punct('>'))
}

/// A list type nests one cons layer per item, in the order of the items, around
/// the terminal `HNil`: the outermost layer holds the first item.
pub proof fn lemma_hlist_type_layers(items: Seq<Seq<Tok>>)
    ensures
        hlist_type(items) == cons_openers(items) + hnil() + closers(items.len()),
    decreases items.len(),
{
    if items.len() == 0 {
        assert(hlist_type(items) =~= cons_openers(items) + hnil() + closers(0));
    } else {
        let rest = items.drop_first();
        lemma_hlist_type_layers(rest);
        assert(closers(rest.len()) + seq![punct('>')] =~= closers(items.len()));
        assert(hlist_type(items) =~= cons_openers(items) + hnil() + closers(items.len()));
    }
}

/// Appends `::frunk_core::hlist::HNil`.
fn push_hnil(out: &mut Vec<Token>)
    ensures
        toks(final(out)@) == toks(old(out)@) + hnil(),
{
    push_core_path(out, "hlist", "HNil");
}

/// `HCons<head, tail>`
fn wrap_type(head: &Vec<Token>, tail: &Vec<Token>) -> (r: Vec<Token>)
    ensures
        toks(r@) == cons_type(toks(head@), toks(tail@)),
{
    let mut out: Vec<Token> = Vec::new();
    push_core_path(&mut out, "hlist", "HCons");
    push_punct(&mut out, '<');
    push_all(&mut out, head);
    push_punct(&mut out, ',');
    push_all(&mut out, tail);
    push_punct(&mut out, '>');
    assert(toks(out@) =~= cons_type(toks(head@), toks(tail@)));
    out
}

/// `HCons { head: head, tail: tail }`
fn wrap_constr(head: &Vec<Token>, tail: &Vec<Token>) -> (r: Vec<Token>)
    ensures
        toks(r@) == cons_constr(toks(head@), toks(tail@)),
{
    let mut out: Vec<Token> = Vec::new();
    push_core_path(&mut out, "hlist", "HCons");
    let ghost prev = out@;
    let open = Token::Open(Delim::Brace);
    out.push(open);
    proof {
        assert(out@ == prev + seq![open]);
        lemma_toks_concat(prev, seq![open]);
    }
    push_ident(&mut out, "head");
    push_punct(&mut out, ':');
    push_all(&mut out, head);
    push_punct(&mut out, ',');
    push_ident(&mut out, "tail");
    push_punct(&mut out, ':');
    push_all(&mut out, tail);
    let ghost prev2 = out@;
    let close = Token::Close(Delim::Brace);
    out.push(close);
    proof {
        assert(out@ == prev2 + seq![close]);
        lemma_toks_concat(prev2, seq![close]);
        assert(toks(seq![open]) =~= seq![Tok::Open(Delim::Brace)]);
        assert(toks(seq![close]) =~= seq![Tok::Close(Delim::Brace)]);
    }
    assert(toks(out@) =~= cons_constr(toks(head@), toks(tail@)));
    out
}

/// The list type `HCons<items[0], HCons<items[1], ... HNil>>` of the given
/// types, built from the last item outwards.
pub fn build_hlist_type(items: &Vec<Vec<Token>>) -> (r: Vec<Token>)
    ensures
        toks(r@) == hlist_type(frags(items@)),
{
    let ghost all = frags(items@);
    let mut result: Vec<Token> = Vec::new();
    push_hnil(&mut result);
    assert(toks(result@) =~= hnil());
    let mut i: usize = items.len();
    assert(all.subrange(i as int, items.len() as int) =~= Seq::<Seq<Tok>>::empty());
    while i > 0
        invariant
            i <= items.len(),
            all == frags(items@),
            toks(result@) == hlist_type(all.subrange(i as int, items.len() as int)),
        decreases i,
    {
        i -= 1;
        result = wrap_type(&items[i], &result);
        assert(all.subrange(i as int, items.len() as int).drop_first() =~= all.subrange(
            i + 1,
            items.len() as int,
        ));
    }
    assert(all.subrange(0, items.len() as int) =~= all);
    result
}

/// The list constructor `HCons { head: items[0], tail: ... HNil }` of the given
/// expressions or patterns, built from the last item outwards.
pub fn build_hlist_constr(items: &Vec<Vec<Token>>) -> (r: Vec<Token>)
    ensures
        toks(r@) == hlist_constr(frags(items@)),
{
    let ghost all = frags(items@);
    let mut result: Vec<Token> = Vec::new();
    push_hnil(&mut result);
    assert(toks(result@) =~= hnil());
    let mut i: usize = items.len();
    assert(all.subrange(i as int, items.len() as int) =~= Seq::<Seq<Tok>>::empty());
    while i > 0
        invariant
            i <= items.len(),
            all == frags(items@),
            toks(result@) == hlist_constr(all.subrange(i as int, items.len() as int)),
        decreases i,
    {
        i -= 1;
        result = wrap_constr(&items[i], &result);
        assert(all.subrange(i as int, items.len() as int).drop_first() =~= all.subrange(
            i + 1,
            items.len() as int,
        ));
    }
    assert(all.subrange(0, items.len() as int) =~= all);
    result
}

} // verus!
