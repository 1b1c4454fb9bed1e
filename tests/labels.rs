use frunk_proc_macro_helpers::encode::encode_as_ident;
use frunk_proc_macro_helpers::hlist::{build_hlist_constr, build_hlist_type};
use frunk_proc_macro_helpers::label::{build_label_type, label_idents};
use frunk_proc_macro_helpers::token::{Delim, Token};

fn word_like(t: &Token) -> bool {
    matches!(t, Token::Ident(_) | Token::Lifetime(_) | Token::Literal(_) | Token::Str(_))
}

fn render(ts: &[Token]) -> String {
    let mut out = String::new();
    for (i, t) in ts.iter().enumerate() {
        if i > 0 && word_like(&ts[i - 1]) && word_like(t) {
            out.push(' ');
        }
        match t {
            Token::Ident(s) => out.push_str(s),
            Token::Punct(c, _) => out.push(*c),
            Token::Lifetime(s) => {
                out.push('\'');
                out.push_str(s);
            }
            Token::Literal(s) => out.push_str(s),
            Token::Str(s) => out.push_str(&format!("{:?}", s)),
            Token::Open(Delim::Paren) => out.push('('),
            Token::Open(Delim::Brace) => out.push('{'),
            Token::Open(Delim::Bracket) => out.push('['),
            Token::Close(Delim::Paren) => out.push(')'),
            Token::Close(Delim::Brace) => out.push('}'),
            Token::Close(Delim::Bracket) => out.push(']'),
            Token::Open(Delim::Invisible) | Token::Close(Delim::Invisible) => {}
        }
    }
    out
}

fn strings(v: &[&str]) -> Vec<String> {
    v.iter().map(|s| s.to_string()).collect()
}

fn ident(s: &str) -> Token {
    Token::Ident(s.to_string())
}

#[test]
fn encode_letter_passes_through() {
    assert_eq!(encode_as_ident(&'a'), strings(&["a"]));
    assert_eq!(encode_as_ident(&'Z'), strings(&["Z"]));
}

#[test]
fn encode_digit_and_underscore_are_escaped() {
    assert_eq!(encode_as_ident(&'7'), strings(&["_7"]));
    assert_eq!(encode_as_ident(&'0'), strings(&["_0"]));
    assert_eq!(encode_as_ident(&'_'), strings(&["__"]));
}

#[test]
fn encode_first_name() {
    let ts = label_idents("first_name");
    assert_eq!(ts, strings(&["f", "i", "r", "s", "t", "__", "n", "a", "m", "e"]));
    assert_eq!(ts.len(), 10);
    assert!(!ts.iter().any(|t| t == "_uc" || t == "uc_"));
}

#[test]
fn encode_non_ascii_is_bracketed_hex() {
    // U+00E9
    assert_eq!(encode_as_ident(&'é'), strings(&["_uc", "e", "_9", "uc_"]));
    // U+2764
    assert_eq!(encode_as_ident(&'❤'), strings(&["_uc", "_2", "_7", "_6", "_4", "uc_"]));
    // U+1F600
    assert_eq!(encode_as_ident(&'😀'), strings(&["_uc", "_1", "f", "_6", "_0", "_0", "uc_"]));
    // U+0020
    assert_eq!(encode_as_ident(&' '), strings(&["_uc", "_2", "_0", "uc_"]));
    let hex_tokens = ["_0", "_1", "_2", "_3", "_4", "_5", "_6", "_7", "_8", "_9", "a", "b", "c", "d", "e", "f"];
    for c in ['-', 'ß', '\u{10FFFF}', '\0'] {
        let ts = encode_as_ident(&c);
        assert_eq!(ts.first().map(|s| s.as_str()), Some("_uc"));
        assert_eq!(ts.last().map(|s| s.as_str()), Some("uc_"));
        assert!(ts.len() >= 3);
        assert!(ts[1..ts.len() - 1].iter().all(|t| hex_tokens.contains(&t.as_str())));
    }
    assert_eq!(encode_as_ident(&'\0'), strings(&["_uc", "_0", "uc_"]));
}

#[test]
fn encode_is_nonempty_and_deterministic() {
    for c in ['a', 'Q', '5', '_', '$', 'λ', '中', '\u{fe0f}'] {
        let first = encode_as_ident(&c);
        let second = encode_as_ident(&c);
        assert!(!first.is_empty());
        assert_eq!(first, second);
    }
}

#[test]
fn label_type_of_name() {
    assert_eq!(
        render(&build_label_type("ab")),
        "(::frunk_core::labelled::chars::a,::frunk_core::labelled::chars::b)"
    );
    assert_eq!(
        render(&build_label_type("x1")),
        "(::frunk_core::labelled::chars::x,::frunk_core::labelled::chars::_1)"
    );
    assert_eq!(render(&build_label_type("")), "()");
}

#[test]
fn labels_of_distinct_names_differ() {
    let names = ["a", "b", "ab", "ba", "_1", "1", "a_b", "a__b", "uc_", "_uc", "é", "e9", "_e9", "aé"];
    for a in names.iter() {
        for b in names.iter() {
            let la = build_label_type(a);
            let lb = build_label_type(b);
            assert_eq!(a == b, la == lb, "{} {}", a, b);
            assert_eq!(a == b, label_idents(a) == label_idents(b));
        }
    }
}

#[test]
fn hlist_type_nests_in_order() {
    let items = vec![vec![ident("A")], vec![ident("B")]];
    assert_eq!(
        render(&build_hlist_type(&items)),
        "::frunk_core::hlist::HCons<A,::frunk_core::hlist::HCons<B,::frunk_core::hlist::HNil>>"
    );
}

#[test]
fn hlist_type_of_nothing_is_hnil() {
    let items: Vec<Vec<Token>> = Vec::new();
    assert_eq!(render(&build_hlist_type(&items)), "::frunk_core::hlist::HNil");
    assert_eq!(render(&build_hlist_constr(&items)), "::frunk_core::hlist::HNil");
}

#[test]
fn hlist_type_has_one_layer_per_item() {
    let items = vec![vec![ident("X")], vec![ident("Y")], vec![ident("Z")]];
    let ts = build_hlist_type(&items);
    let layers = ts.iter().filter(|t| **t == ident("HCons")).count();
    assert_eq!(layers, 3);
    let closers = ts.iter().rev().take_while(|t| **t == Token::Punct('>', false)).count();
    assert_eq!(closers, 3);
    // the head of the outermost layer is the first item
    assert_eq!(ts[9], Token::Punct('<', false));
    assert_eq!(ts[10], ident("X"));
}

#[test]
fn hlist_constr_nests_in_order() {
    let items = vec![vec![ident("a")], vec![ident("b")]];
    assert_eq!(
        render(&build_hlist_constr(&items)),
        "::frunk_core::hlist::HCons{head:a,tail:::frunk_core::hlist::HCons{head:b,tail:::frunk_core::hlist::HNil}}"
    );
}
