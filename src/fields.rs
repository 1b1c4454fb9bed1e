//! The fields of a struct or enum variant bound to local variables, and the
//! fragments of generated code built from those bindings.
use vstd::prelude::*;
use crate::encode::{chars_string, digits, numeral, lemma_digits_injective};
use crate::hlist::{frags, hlist_constr, hlist_type};
use crate::label::{build_label_type, label_type};
use crate::token::{
    Delim, Tok, Token, toks, sep, core_path, punct, push_all, push_core_path, push_ident,
    push_punct, push_sep, push_tok,
};

verus! {

/// A declared field: its name, if it has one, and its type.
#[derive(Debug, PartialEq, Eq)]
pub struct Field {
    pub ident: Option<String>,
    pub ty: Vec<Token>,
}

/// The field list of a struct or variant, by its syntactic kind.
#[derive(Debug, PartialEq, Eq)]
pub enum Fields {
    Named(Vec<Field>),
    Unnamed(Vec<Field>),
    Unit,
}

/// The shape of a field list.
#[derive(Clone, Copy, Debug, PartialEq, Eq, Structural)]
pub enum StructType {
    Named,
    Tuple,
    Unit,
}

/// A field together with the local variable it is bound to.
#[derive(Debug, PartialEq, Eq)]
pub struct FieldBinding {
    pub field: Field,
    pub binding: String,
}

/// Represents the binding of a struct or enum variant's fields to a corresponding
/// set of similarly named local variables.
#[derive(Debug)]
pub struct FieldBindings {
    pub type_: StructType,
    pub fields: Vec<FieldBinding>,
}

/// The characters of an optional name.
pub open spec fn opt_view(o: Option<String>) -> Option<Seq<char>> {
    match o {
        Some(s) => Some(s@),
        None => None,
    }
}

/// Two fields with the same name and the same type.
pub open spec fn same_field(a: Field, b: Field) -> bool {
    opt_view(a.ident) == opt_view(b.ident) && toks(a.ty@) == toks(b.ty@)
}

/// The fields of a field list, in order.
pub open spec fn fields_of(f: &Fields) -> Seq<Field> {
    match f {
        Fields::Named(v) => v@,
        Fields::Unnamed(v) => v@,
        Fields::Unit => seq![],
    }
}

/// The shape of a field list.
pub open spec fn shape_of(f: &Fields) -> StructType {
    match f {
        Fields::Named(_) => StructType::Named,
        Fields::Unnamed(_) => StructType::Tuple,
        Fields::Unit => StructType::Unit,
    }
}

/// The variable a field at `index` is bound to: its own name, or `_` followed
/// by the index in decimal for a positional field.
pub open spec fn binding_name(f: Field, index: nat) -> Seq<char> {
    match f.ident {
        Some(s) => s@,
        None => seq!['_'] + digits(index, 10),
    }
}

/// A field list as the language allows it: named fields all have a name, and
/// distinct ones; positional fields have none.
pub open spec fn well_formed(f: &Fields) -> bool {
    match f {
        Fields::Named(v) => forall|i: int, j: int|
            0 <= i < v@.len() && 0 <= j < v@.len() && i != j ==> (#[trigger] v@[i]).ident is Some
                && opt_view(v@[i].ident) != opt_view(#[trigger] v@[j].ident),
        Fields::Unnamed(v) => forall|i: int| 0 <= i < v@.len() ==> (#[trigger] v@[i]).ident is None,
        Fields::Unit => true,
    }
}

/// `'_frunk_ref_`, the lifetime of the borrowed variants.
pub open spec fn ref_lifetime() -> Tok {
    Tok::Lifetime("_frunk_ref_"@)
}

/// `&'_frunk_ref_ ty`
pub open spec fn ref_type(ty: Seq<Tok>) -> Seq<Tok> {
    seq![punct('&'), ref_lifetime()] + ty
}

/// `&'_frunk_ref_ mut ty`
pub open spec fn mut_type(ty: Seq<Tok>) -> Seq<Tok> {
    seq![punct('&'), ref_lifetime(), Tok::Ident("mut"@)] + ty
}

/// `::frunk_core::labelled::Field<label(name), ty>`
pub open spec fn labelled_type(name: Seq<char>, ty: Seq<Tok>) -> Seq<Tok> {
    core_path("labelled"@, "Field"@) + seq![punct('<')] + label_type(name) + seq![punct(',')] + ty
        + seq![punct('>')]
}

/// `::frunk_core::labelled::field_with_name::<label(name), _>("name", name)`
pub open spec fn labelled_expr(name: Seq<char>) -> Seq<Tok> {
    core_path("labelled"@, "field_with_name"@) + sep() + seq![punct('<')] + label_type(name)
        + seq![punct(','), Tok::Ident("_"@), punct('>')] + seq![
        Tok::Open(Delim::Paren),
        Tok::Str(name),
        punct(','),
        Tok::Ident(name),
        Tok::Close(Delim::Paren),
    ]
}

/// `::frunk_core::labelled::Field { value: name, .. }`
pub open spec fn labelled_pat(name: Seq<char>) -> Seq<Tok> {
    core_path("labelled"@, "Field"@) + seq![
        Tok::Open(Delim::Brace),
        Tok::Ident("value"@),
        punct(':'),
        Tok::Ident(name),
        punct(','),
        Tok::Punct('.', true),
        Tok::Punct('.', false),
        Tok::Close(Delim::Brace),
    ]
}

/// Each fragment followed by a comma.
pub open spec fn each_comma(parts: Seq<Seq<Tok>>) -> Seq<Tok>
    decreases parts.len(),
{
    if parts.len() == 0 {
        seq![]
    } else {
        each_comma(parts.drop_last()) + parts.last() + seq![punct(',')]
    }
}

/// The fragments in the brackets of the shape: `{ a, b, }`, `( a, b, )`, or
/// nothing for a unit shape.
pub open spec fn shape_constr(t: StructType, parts: Seq<Seq<Tok>>) -> Seq<Tok> {
    match t {
        StructType::Named => seq![Tok::Open(Delim::Brace)] + each_comma(parts) + seq![
            Tok::Close(Delim::Brace),
        ],
        StructType::Tuple => seq![Tok::Open(Delim::Paren)] + each_comma(parts) + seq![
            Tok::Close(Delim::Paren),
        ],
        StructType::Unit => seq![],
    }
}

/// Distinct fields of a well-formed field list are bound to distinct variables.
pub proof fn lemma_bindings_distinct(f: &Fields, i: int, j: int)
    requires
        well_formed(f),
        0 <= i < fields_of(f).len(),
        0 <= j < fields_of(f).len(),
        i != j,
    ensures
        binding_name(fields_of(f)[i], i as nat) != binding_name(fields_of(f)[j], j as nat),
{
    let v = fields_of(f);
    match f {
        Fields::Named(_) => {
            assert(v[i].ident is Some && opt_view(v[i].ident) != opt_view(v[j].ident));
            assert(v[j].ident is Some) by {
                assert(v[j].ident is Some && opt_view(v[j].ident) != opt_view(v[i].ident));
            }
        },
        Fields::Unnamed(_) => {
            assert(v[i].ident is None);
            assert(v[j].ident is None);
            let a = binding_name(v[i], i as nat);
            let b = binding_name(v[j], j as nat);
            if a == b {
                assert(a.drop_first() =~= digits(i as nat, 10));
                assert(b.drop_first() =~= digits(j as nat, 10));
                lemma_digits_injective(i as nat, j as nat, 10);
            }
        },
        Fields::Unit => {},
    }
}

impl Field {
    /// A copy of this field.
    pub fn dup(&self) -> (r: Field)
        ensures
            same_field(r, *self),
    {
        let ident = match &self.ident {
            Some(s) => Some(s.clone()),
            None => None,
        };
        let mut ty: Vec<Token> = Vec::new();
        push_all(&mut ty, &self.ty);
        assert(toks(ty@) =~= toks(self.ty@));
        Field { ident, ty }
    }
}

/// Appends `'_frunk_ref_`.
fn push_ref_lifetime(out: &mut Vec<Token>)
    ensures
        toks(final(out)@) == toks(old(out)@) + seq![ref_lifetime()],
{
    push_tok(out, Token::Lifetime(String::from_str("_frunk_ref_")));
}

/// Appends `::frunk_core::labelled::Field<label(name), ` and the marker of a
/// borrowed type where `borrow` asks for one (`&'_frunk_ref_`, with `mut` when
/// `mutable` holds), then `ty>`.
fn push_labelled_type(out: &mut Vec<Token>, name: &String, ty: &Vec<Token>, borrow: bool, mutable: bool)
    ensures
        toks(final(out)@) == toks(old(out)@) + labelled_type(
            name@,
            if !borrow {
                toks(ty@)
            } else if mutable {
                mut_type(toks(ty@))
            } else {
                ref_type(toks(ty@))
            },
        ),
{
    let ghost start = toks(out@);
    push_core_path(out, "labelled", "Field");
    push_punct(out, '<');
    let label = build_label_type(name.as_str());
    push_all(out, &label);
    push_punct(out, ',');
    if borrow {
        push_punct(out, '&');
        push_ref_lifetime(out);
        if mutable {
            push_ident(out, "mut");
        }
    }
    push_all(out, ty);
    push_punct(out, '>');
    assert(toks(out@) =~= start + labelled_type(
        name@,
        if !borrow {
            toks(ty@)
        } else if mutable {
            mut_type(toks(ty@))
        } else {
            ref_type(toks(ty@))
        },
    ));
}

impl FieldBinding {
    /// The declared type of the field.
    pub fn build_type(&self) -> (r: Vec<Token>)
        ensures
            toks(r@) == toks(self.field.ty@),
    {
        let mut out: Vec<Token> = Vec::new();
        push_all(&mut out, &self.field.ty);
        assert(toks(out@) =~= toks(self.field.ty@));
        out
    }

    /// The declared type behind a shared reference: `&'_frunk_ref_ ty`.
    pub fn build_type_ref(&self) -> (r: Vec<Token>)
        ensures
            toks(r@) == ref_type(toks(self.field.ty@)),
    {
        let mut out: Vec<Token> = Vec::new();
        push_punct(&mut out, '&');
        push_ref_lifetime(&mut out);
        push_all(&mut out, &self.field.ty);
        assert(toks(out@) =~= ref_type(toks(self.field.ty@)));
        out
    }

    /// The declared type behind a mutable reference: `&'_frunk_ref_ mut ty`.
    pub fn build_type_mut(&self) -> (r: Vec<Token>)
        ensures
            toks(r@) == mut_type(toks(self.field.ty@)),
    {
        let mut out: Vec<Token> = Vec::new();
        push_punct(&mut out, '&');
        push_ref_lifetime(&mut out);
        push_ident(&mut out, "mut");
        push_all(&mut out, &self.field.ty);
        assert(toks(out@) =~= mut_type(toks(self.field.ty@)));
        out
    }

    /// The labelled field type `Field<label(binding), ty>`.
    pub fn build_field_type(&self) -> (r: Vec<Token>)
        ensures
            toks(r@) == labelled_type(self.binding@, toks(self.field.ty@)),
    {
        let mut out: Vec<Token> = Vec::new();
        push_labelled_type(&mut out, &self.binding, &self.field.ty, false, false);
        assert(toks(out@) =~= labelled_type(self.binding@, toks(self.field.ty@)));
        out
    }

    /// The labelled field type of a shared reference: `Field<label(binding), &'_frunk_ref_ ty>`.
    pub fn build_field_type_ref(&self) -> (r: Vec<Token>)
        ensures
            toks(r@) == labelled_type(self.binding@, ref_type(toks(self.field.ty@))),
    {
        let mut out: Vec<Token> = Vec::new();
        push_labelled_type(&mut out, &self.binding, &self.field.ty, true, false);
        assert(toks(out@) =~= labelled_type(self.binding@, ref_type(toks(self.field.ty@))));
        out
    }

    /// The labelled field type of a mutable reference: `Field<label(binding), &'_frunk_ref_ mut ty>`.
    pub fn build_field_type_mut(&self) -> (r: Vec<Token>)
        ensures
            toks(r@) == labelled_type(self.binding@, mut_type(toks(self.field.ty@))),
    {
        let mut out: Vec<Token> = Vec::new();
        push_labelled_type(&mut out, &self.binding, &self.field.ty, true, true);
        assert(toks(out@) =~= labelled_type(self.binding@, mut_type(toks(self.field.ty@))));
        out
    }

    /// The bound variable.
    pub fn build(&self) -> (r: Vec<Token>)
        ensures
            toks(r@) == seq![Tok::Ident(self.binding@)],
    {
        let mut out: Vec<Token> = Vec::new();
        push_tok(&mut out, Token::Ident(self.binding.clone()));
        assert(toks(out@) =~= seq![Tok::Ident(self.binding@)]);
        out
    }

    /// The variable as a by-reference pattern: `ref binding`.
    pub fn build_pat_ref(&self) -> (r: Vec<Token>)
        ensures
            toks(r@) == seq![Tok::Ident("ref"@), Tok::Ident(self.binding@)],
    {
        let mut out: Vec<Token> = Vec::new();
        push_ident(&mut out, "ref");
        push_tok(&mut out, Token::Ident(self.binding.clone()));
        assert(toks(out@) =~= seq![Tok::Ident("ref"@), Tok::Ident(self.binding@)]);
        out
    }

    /// The variable as a by-mutable-reference pattern: `ref mut binding`.
    pub fn build_pat_mut(&self) -> (r: Vec<Token>)
        ensures
            toks(r@) == seq![Tok::Ident("ref"@), Tok::Ident("mut"@), Tok::Ident(self.binding@)],
    {
        let mut out: Vec<Token> = Vec::new();
        push_ident(&mut out, "ref");
        push_ident(&mut out, "mut");
        push_tok(&mut out, Token::Ident(self.binding.clone()));
        assert(toks(out@) =~= seq![Tok::Ident("ref"@), Tok::Ident("mut"@), Tok::Ident(self.binding@)]);
        out
    }

    /// An expression that wraps the variable in a labelled field, with the
    /// label type and the name as a string:
    /// `field_with_name::<label(binding), _>("binding", binding)`.
    pub fn build_field_expr(&self) -> (r: Vec<Token>)
        ensures
            toks(r@) == labelled_expr(self.binding@),
    {
        let mut out: Vec<Token> = Vec::new();
        push_core_path(&mut out, "labelled", "field_with_name");
        push_sep(&mut out);
        push_punct(&mut out, '<');
        let label = build_label_type(self.binding.as_str());
        push_all(&mut out, &label);
        push_punct(&mut out, ',');
        push_ident(&mut out, "_");
        push_punct(&mut out, '>');
        push_tok(&mut out, Token::Open(Delim::Paren));
        push_tok(&mut out, Token::Str(self.binding.clone()));
        push_punct(&mut out, ',');
        push_tok(&mut out, Token::Ident(self.binding.clone()));
        push_tok(&mut out, Token::Close(Delim::Paren));
        assert(toks(out@) =~= labelled_expr(self.binding@));
        out
    }

    /// A pattern that matches a labelled field and binds its value to the
    /// variable: `Field { value: binding, .. }`.
    pub fn build_field_pat(&self) -> (r: Vec<Token>)
        ensures
            toks(r@) == labelled_pat(self.binding@),
    {
        let mut out: Vec<Token> = Vec::new();
        push_core_path(&mut out, "labelled", "Field");
        push_tok(&mut out, Token::Open(Delim::Brace));
        push_ident(&mut out, "value");
        push_punct(&mut out, ':');
        push_tok(&mut out, Token::Ident(self.binding.clone()));
        push_punct(&mut out, ',');
        push_tok(&mut out, Token::Punct('.', true));
        push_punct(&mut out, '.');
        push_tok(&mut out, Token::Close(Delim::Brace));
        assert(toks(out@) =~= labelled_pat(self.binding@));
        out
    }
}

/// The variable name for the field at `index`.
fn binding_for(f: &Field, index: usize) -> (r: String)
    ensures
        r@ == binding_name(*f, index as nat),
{
    match &f.ident {
        Some(s) => s.clone(),
        None => {
            let ds = numeral(index as u64, 10);
            let n = chars_string(&ds);
            proof {
                reveal_strlit("_");
            }
            let r = String::from_str("_").concat(n.as_str());
            assert(r@ =~= binding_name(*f, index as nat));
            r
        },
    }
}

impl FieldBindings {
    /// Binds each field to a variable: a named field to its own name, a
    /// positional one to `_` followed by its index.
    pub fn new(fields: &Fields) -> (r: Self)
        ensures
            r.type_ == shape_of(fields),
            r.fields@.len() == fields_of(fields).len(),
            forall|i: int|
                0 <= i < r.fields@.len() ==> same_field(#[trigger] r.fields@[i].field, fields_of(fields)[i])
                    && r.fields@[i].binding@ == binding_name(fields_of(fields)[i], i as nat),
    {
        let type_ = match fields {
            Fields::Named(_) => StructType::Named,
            Fields::Unnamed(_) => StructType::Tuple,
            Fields::Unit => StructType::Unit,
        };
        let empty: Vec<Field> = Vec::new();
        let list: &Vec<Field> = match fields {
            Fields::Named(v) => v,
            Fields::Unnamed(v) => v,
            Fields::Unit => &empty,
        };
        assert(list@ == fields_of(fields));
        let mut out: Vec<FieldBinding> = Vec::new();
        let mut i: usize = 0;
        while i < list.len()
            invariant
                i <= list.len(),
                list@ == fields_of(fields),
                out@.len() == i,
                forall|k: int|
                    0 <= k < i ==> same_field(#[trigger] out@[k].field, list@[k])
                        && out@[k].binding@ == binding_name(list@[k], k as nat),
            decreases list.len() - i,
        {
            let binding = binding_for(&list[i], i);
            out.push(FieldBinding { field: list[i].dup(), binding });
            i += 1;
        }
        FieldBindings { type_, fields: out }
    }

    /// The results of `f` on each binding, in order.
    fn map_fields<F: Fn(&FieldBinding) -> Vec<Token>>(&self, f: &F) -> (r: Vec<Vec<Token>>)
        requires
            forall|i: int| 0 <= i < self.fields@.len() ==> f.requires((&self.fields@[i],)),
        ensures
            r@.len() == self.fields@.len(),
            forall|i: int| 0 <= i < r@.len() ==> f.ensures((&self.fields@[i],), #[trigger] r@[i]),
    {
        let mut out: Vec<Vec<Token>> = Vec::new();
        let mut i: usize = 0;
        while i < self.fields.len()
            invariant
                i <= self.fields@.len(),
                out@.len() == i,
                forall|k: int| 0 <= k < self.fields@.len() ==> f.requires((&self.fields@[k],)),
                forall|k: int| 0 <= k < i ==> f.ensures((&self.fields@[k],), #[trigger] out@[k]),
            decreases self.fields@.len() - i,
        {
            let part = f(&self.fields[i]);
            out.push(part);
            i += 1;
        }
        out
    }

    /// Builds a type constructor for use with structs or enum variants. Does not include the name
    /// of the type or variant: the results of `f` on the bindings, each followed by
    /// a comma, in braces for named fields, in parentheses for positional ones, and
    /// nothing at all for a unit shape.
    pub fn build_type_constr<F: Fn(&FieldBinding) -> Vec<Token>>(&self, f: F) -> (r: Vec<Token>)
        requires
            forall|i: int| 0 <= i < self.fields@.len() ==> f.requires((&self.fields@[i],)),
        ensures
            exists|parts: Seq<Vec<Token>>|
                parts.len() == self.fields@.len() && (forall|i: int|
                    0 <= i < parts.len() ==> f.ensures((&self.fields@[i],), #[trigger] parts[i]))
                    && toks(r@) == shape_constr(self.type_, frags(parts)),
    {
        let parts = self.map_fields(&f);
        let ghost ps = frags(parts@);
        let mut out: Vec<Token> = Vec::new();
        match self.type_ {
            StructType::Unit => {
                assert(toks(out@) =~= shape_constr(self.type_, ps));
                return out;
            },
            StructType::Named => push_tok(&mut out, Token::Open(Delim::Brace)),
            StructType::Tuple => push_tok(&mut out, Token::Open(Delim::Paren)),
        }
        let ghost start = toks(out@);
        assert(toks(out@) =~= start + each_comma(ps.subrange(0, 0)));
        let mut i: usize = 0;
        while i < parts.len()
            invariant
                i <= parts@.len(),
                ps == frags(parts@),
                toks(out@) == start + each_comma(ps.subrange(0, i as int)),
            decreases parts@.len() - i,
        {
            push_all(&mut out, &parts[i]);
            push_punct(&mut out, ',');
            i += 1;
            assert(ps.subrange(0, i as int).drop_last() =~= ps.subrange(0, i - 1));
            assert(toks(out@) =~= start + each_comma(ps.subrange(0, i as int)));
        }
        assert(ps.subrange(0, parts@.len() as int) =~= ps);
        match self.type_ {
            StructType::Named => push_tok(&mut out, Token::Close(Delim::Brace)),
            _ => push_tok(&mut out, Token::Close(Delim::Paren)),
        }
        assert(toks(out@) =~= shape_constr(self.type_, ps));
        out
    }

    /// The list type of the results of `f` on the bindings, in order.
    pub fn build_hlist_type<F: Fn(&FieldBinding) -> Vec<Token>>(&self, f: F) -> (r: Vec<Token>)
        requires
            forall|i: int| 0 <= i < self.fields@.len() ==> f.requires((&self.fields@[i],)),
        ensures
            exists|parts: Seq<Vec<Token>>|
                parts.len() == self.fields@.len() && (forall|i: int|
                    0 <= i < parts.len() ==> f.ensures((&self.fields@[i],), #[trigger] parts[i]))
                    && toks(r@) == hlist_type(frags(parts)),
    {
        let parts = self.map_fields(&f);
        crate::hlist::build_hlist_type(&parts)
    }

    /// The list constructor (or pattern) of the results of `f` on the bindings, in order.
    pub fn build_hlist_constr<F: Fn(&FieldBinding) -> Vec<Token>>(&self, f: F) -> (r: Vec<Token>)
        requires
            forall|i: int| 0 <= i < self.fields@.len() ==> f.requires((&self.fields@[i],)),
        ensures
            exists|parts: Seq<Vec<Token>>|
                parts.len() == self.fields@.len() && (forall|i: int|
                    0 <= i < parts.len() ==> f.ensures((&self.fields@[i],), #[trigger] parts[i]))
                    && toks(r@) == hlist_constr(frags(parts)),
    {
        let parts = self.map_fields(&f);
        crate::hlist::build_hlist_constr(&parts)
    }
}

} // verus!
