use frunk_proc_macro_helpers::fields::{Field, FieldBinding, FieldBindings, Fields, StructType};
use frunk_proc_macro_helpers::generics::{ref_generics, GenericParam, Generics, LifetimeDef};
use frunk_proc_macro_helpers::path::{build_path_type, find_idents_in_expr, Member, PathError, PathExpr};
use frunk_proc_macro_helpers::token::{Delim, Token};

fn word_like(t: &Token) -> bool {
    matches!(t, Token::Ident(_) | Token::Lifetime(_) | Token::Literal(_) | Token::Str(_))
}

fn render(ts: &[Token]) -> String {
    let mut out = String::new();
    for (i, t) in ts.iter().enumerate() {
        if i > 0 && word_like(&ts[i - 1]) && word_like(t) {
            out.push(' ');
        }
        match t {
            Token::Ident(s) => out.push_str(s),
            Token::Punct(c, _) => out.push(*c),
            Token::Lifetime(s) => {
                out.push('\'');
                out.push_str(s);
            }
            Token::Literal(s) => out.push_str(s),
            Token::Str(s) => out.push_str(&format!("{:?}", s)),
            Token::Open(Delim::Paren) => out.push('('),
            Token::Open(Delim::Brace) => out.push('{'),
            Token::Open(Delim::Bracket) => out.push('['),
            Token::Close(Delim::Paren) => out.push(')'),
            Token::Close(Delim::Brace) => out.push('}'),
            Token::Close(Delim::Bracket) => out.push(']'),
            Token::Open(Delim::Invisible) | Token::Close(Delim::Invisible) => {}
        }
    }
    out
}

fn ident(s: &str) -> Token {
    Token::Ident(s.to_string())
}

fn name(s: &str) -> PathExpr {
    PathExpr::Path(vec![s.to_string()])
}

fn access(base: PathExpr, member: &str) -> PathExpr {
    PathExpr::Field(Box::new(base), Member::Named(member.to_string()))
}

fn named(n: &str, ty: &str) -> Field {
    Field { ident: Some(n.to_string()), ty: vec![ident(ty)] }
}

fn positional(ty: &str) -> Field {
    Field { ident: None, ty: vec![ident(ty)] }
}

fn bindings(fb: &FieldBindings) -> Vec<String> {
    fb.fields.iter().map(|b| b.binding.clone()).collect()
}

const LA: &str = "::frunk_core::labelled::chars::";

#[test]
fn path_idents_are_reversed() {
    let e = access(access(name("a"), "b"), "c");
    assert_eq!(
        find_idents_in_expr(&e),
        Ok(vec!["c".to_string(), "b".to_string(), "a".to_string()])
    );
    assert_eq!(find_idents_in_expr(&name("x")), Ok(vec!["x".to_string()]));
}

#[test]
fn path_errors() {
    let positional_access = PathExpr::Field(Box::new(name("a")), Member::Unnamed(0));
    assert_eq!(find_idents_in_expr(&positional_access), Err(PathError::UnnamedMember));
    let qualified = PathExpr::Path(vec!["a".to_string(), "b".to_string()]);
    assert_eq!(find_idents_in_expr(&qualified), Err(PathError::QualifiedName));
    assert_eq!(find_idents_in_expr(&access(qualified, "c")), Err(PathError::QualifiedName));
    assert_eq!(find_idents_in_expr(&access(PathExpr::Other, "c")), Err(PathError::UnsupportedExpr));
    assert_eq!(build_path_type(&PathExpr::Other), Err(PathError::UnsupportedExpr));
    let inner_positional = access(PathExpr::Field(Box::new(name("a")), Member::Unnamed(1)), "b");
    assert_eq!(build_path_type(&inner_positional), Err(PathError::UnnamedMember));
}

#[test]
fn path_type_of_access_chain() {
    let e = access(name("a"), "b");
    let expected = format!(
        "::frunk_core::path::Path<::frunk_core::hlist::HCons<({}a),::frunk_core::path::Path<::frunk_core::hlist::HCons<({}b),::frunk_core::hlist::HNil>>>>",
        LA, LA
    );
    assert_eq!(render(&build_path_type(&e).unwrap()), expected);
    let single = format!(
        "::frunk_core::path::Path<::frunk_core::hlist::HCons<({}x),::frunk_core::hlist::HNil>>",
        LA
    );
    assert_eq!(render(&build_path_type(&name("x")).unwrap()), single);
}

#[test]
fn named_fields_bind_their_names() {
    let fb = FieldBindings::new(&Fields::Named(vec![named("x", "u8"), named("first_name", "String")]));
    assert_eq!(fb.type_, StructType::Named);
    assert_eq!(fb.fields.len(), 2);
    assert_eq!(bindings(&fb), vec!["x".to_string(), "first_name".to_string()]);
    assert_eq!(fb.fields[1].field, named("first_name", "String"));
}

#[test]
fn tuple_fields_bind_indices() {
    let fields: Vec<Field> = (0..12).map(|_| positional("u8")).collect();
    let fb = FieldBindings::new(&Fields::Unnamed(fields));
    assert_eq!(fb.type_, StructType::Tuple);
    assert_eq!(fb.fields.len(), 12);
    let bs = bindings(&fb);
    assert_eq!(bs[0], "_0");
    assert_eq!(bs[1], "_1");
    assert_eq!(bs[10], "_10");
    assert_eq!(bs[11], "_11");
    for i in 0..bs.len() {
        for j in 0..bs.len() {
            assert_eq!(i == j, bs[i] == bs[j]);
        }
    }
}

#[test]
fn unit_fields_build_nothing() {
    let fb = FieldBindings::new(&Fields::Unit);
    assert_eq!(fb.type_, StructType::Unit);
    assert!(fb.fields.is_empty());
    assert!(fb.build_type_constr(|b| b.build()).is_empty());
    assert!(fb.build_type_constr(|b| b.build_field_expr()).is_empty());
    assert!(fb.build_type_constr(|_| vec![ident("anything")]).is_empty());
    assert_eq!(render(&fb.build_hlist_type(|b| b.build_field_type())), "::frunk_core::hlist::HNil");
}

#[test]
fn shape_constructors() {
    let named_fb = FieldBindings::new(&Fields::Named(vec![named("x", "u8"), named("y", "i32")]));
    assert_eq!(render(&named_fb.build_type_constr(|b| b.build())), "{x,y,}");
    assert_eq!(render(&named_fb.build_type_constr(|b| b.build_pat_ref())), "{ref x,ref y,}");
    assert_eq!(render(&named_fb.build_type_constr(|b| b.build_pat_mut())), "{ref mut x,ref mut y,}");
    let tuple_fb = FieldBindings::new(&Fields::Unnamed(vec![positional("u8"), positional("bool")]));
    assert_eq!(render(&tuple_fb.build_type_constr(|b| b.build())), "(_0,_1,)");
    assert_eq!(render(&tuple_fb.build_type_constr(|b| b.build_type())), "(u8,bool,)");
}

#[test]
fn field_fragments() {
    let b = FieldBinding { field: named("x", "u8"), binding: "x".to_string() };
    assert_eq!(render(&b.build_type()), "u8");
    assert_eq!(render(&b.build_type_ref()), "&'_frunk_ref_ u8");
    assert_eq!(render(&b.build_type_mut()), "&'_frunk_ref_ mut u8");
    assert_eq!(render(&b.build()), "x");
    assert_eq!(render(&b.build_pat_ref()), "ref x");
    assert_eq!(render(&b.build_pat_mut()), "ref mut x");
    assert_eq!(
        render(&b.build_field_type()),
        format!("::frunk_core::labelled::Field<({}x),u8>", LA)
    );
    assert_eq!(
        render(&b.build_field_type_ref()),
        format!("::frunk_core::labelled::Field<({}x),&'_frunk_ref_ u8>", LA)
    );
    assert_eq!(
        render(&b.build_field_type_mut()),
        format!("::frunk_core::labelled::Field<({}x),&'_frunk_ref_ mut u8>", LA)
    );
    assert_eq!(
        render(&b.build_field_expr()),
        format!("::frunk_core::labelled::field_with_name::<({}x),_>(\"x\",x)", LA)
    );
    assert_eq!(render(&b.build_field_pat()), "::frunk_core::labelled::Field{value:x,..}");
    let pat = b.build_field_pat();
    assert_eq!(pat[pat.len() - 3], Token::Punct('.', true));
}

#[test]
fn field_list_types_and_constructors() {
    let fb = FieldBindings::new(&Fields::Named(vec![named("a", "u8"), named("b", "bool")]));
    assert_eq!(
        render(&fb.build_hlist_type(|b| b.build_type())),
        "::frunk_core::hlist::HCons<u8,::frunk_core::hlist::HCons<bool,::frunk_core::hlist::HNil>>"
    );
    assert_eq!(
        render(&fb.build_hlist_constr(|b| b.build())),
        "::frunk_core::hlist::HCons{head:a,tail:::frunk_core::hlist::HCons{head:b,tail:::frunk_core::hlist::HNil}}"
    );
    let field_types = render(&fb.build_hlist_type(|b| b.build_field_type()));
    assert!(field_types.starts_with(&format!(
        "::frunk_core::hlist::HCons<::frunk_core::labelled::Field<({}a),u8>,",
        LA
    )));
}

fn lifetime(n: &str, bounds: &[&str]) -> GenericParam {
    GenericParam::Lifetime(LifetimeDef {
        lifetime: n.to_string(),
        bounds: bounds.iter().map(|s| s.to_string()).collect(),
    })
}

#[test]
fn ref_generics_adds_one_lifetime() {
    let g = Generics { params: vec![lifetime("a", &[])] };
    let r = ref_generics(&g);
    assert_eq!(r.params.len(), 2);
    assert_eq!(r.params[0], lifetime("a", &["_frunk_ref_"]));
    assert_eq!(r.params[1], lifetime("_frunk_ref_", &[]));
}

#[test]
fn ref_generics_keeps_types_and_bounds() {
    let t = GenericParam::Type(vec![ident("T"), Token::Punct(':', false), ident("Clone")]);
    let n = GenericParam::Const(vec![ident("const"), ident("N"), Token::Punct(':', false), ident("usize")]);
    let g = Generics {
        params: vec![
            lifetime("a", &[]),
            lifetime("b", &["a"]),
            GenericParam::Type(vec![ident("T"), Token::Punct(':', false), ident("Clone")]),
            GenericParam::Const(vec![ident("const"), ident("N"), Token::Punct(':', false), ident("usize")]),
        ],
    };
    let r = ref_generics(&g);
    assert_eq!(r.params.len(), 5);
    assert_eq!(r.params[0], lifetime("a", &["_frunk_ref_"]));
    assert_eq!(r.params[1], lifetime("b", &["a", "_frunk_ref_"]));
    assert_eq!(r.params[2], t);
    assert_eq!(r.params[3], n);
    assert_eq!(r.params[4], lifetime("_frunk_ref_", &[]));
    let empty = ref_generics(&Generics { params: vec![] });
    assert_eq!(empty.params, vec![lifetime("_frunk_ref_", &[])]);
}
