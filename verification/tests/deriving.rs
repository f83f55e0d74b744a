use default_derive::default_derive;
use default_derive::emit::emit_default_impl;
use default_derive::parser::{Error, Field, Struct, VisibilityModifier};
use default_derive::token::{DelimiterKind, Token};

fn ident(s: &str) -> Token {
    Token::Ident(s.to_string())
}

fn punct(c: char) -> Token {
    Token::Punct(c, false)
}

fn field(name: &str, typ: &str) -> Field {
    Field {
        visibility: None,
        name: name.to_string(),
        typ: typ.to_string(),
    }
}

/// The tokens of `struct Foo { bar: usize, baz: String }`, with the given
/// field names in the given order.
fn struct_two_fields(first: &str, second: &str) -> Vec<Token> {
    vec![
        ident("struct"),
        ident("Foo"),
        Token::Group(
            DelimiterKind::Brace,
            vec![
                ident(first),
                punct(':'),
                ident("usize"),
                punct(','),
                ident(second),
                punct(':'),
                ident("String"),
            ],
        ),
    ]
}

#[test]
fn emitted_text_for_zero_fields_has_empty_initializer_list() {
    let s = Struct {
        name: "Foo".to_string(),
        fields: vec![],
    };
    assert_eq!(
        emit_default_impl(&s),
        "#[automatically_derived] impl crate::OurDefault for Foo \
         { fn our_default() -> Self { Foo {  } } }"
    );
}

#[test]
fn emitted_text_has_one_initializer_per_field_in_order() {
    let s = Struct {
        name: "Point".to_string(),
        fields: vec![field("x", "i64"), field("y", "i64"), field("label", "String")],
    };
    let text = emit_default_impl(&s);
    assert_eq!(
        text,
        "#[automatically_derived] impl crate::OurDefault for Point \
         { fn our_default() -> Self { Point { \
         x: Default::default()\n,y: Default::default()\n,label: Default::default() \
         } } }"
    );
    // One clause per field, each naming that field.
    assert_eq!(text.matches("Default::default()").count(), 3);
    let x_at = text.find("x: Default").unwrap();
    let y_at = text.find("y: Default").unwrap();
    let label_at = text.find("label: Default").unwrap();
    assert!(x_at < y_at && y_at < label_at);
}

#[test]
fn emitted_field_visibility_does_not_change_the_clause() {
    let with_vis = Struct {
        name: "Foo".to_string(),
        fields: vec![Field {
            visibility: Some(VisibilityModifier::Pub),
            name: "bar".to_string(),
            typ: "usize".to_string(),
        }],
    };
    let without_vis = Struct {
        name: "Foo".to_string(),
        fields: vec![field("bar", "usize")],
    };
    assert_eq!(emit_default_impl(&with_vis), emit_default_impl(&without_vis));
}

#[test]
fn derive_zero_field_struct_round_trips_through_the_lexer() {
    let tokens = vec![
        ident("struct"),
        ident("Foo"),
        Token::Group(DelimiterKind::Brace, vec![]),
    ];
    let out = default_derive(tokens).unwrap();
    // The output is the emitted text lexed into fresh token trees, not the
    // input handed back: it begins with the emitted attribute, and holds
    // the generated function inside a brace group.
    assert_eq!(out[0], punct('#'));
    assert_eq!(
        out[1],
        Token::Group(DelimiterKind::Bracket, vec![ident("automatically_derived")])
    );
    assert_eq!(out[2], ident("impl"));
    assert_eq!(out[3], ident("crate"));
    assert_eq!(out[4], Token::Punct(':', true));
    assert_eq!(out[5], Token::Punct(':', false));
    assert_eq!(out[6], ident("OurDefault"));
    assert_eq!(out[7], ident("for"));
    assert_eq!(out[8], ident("Foo"));
    assert_eq!(
        out[9],
        Token::Group(
            DelimiterKind::Brace,
            vec![
                ident("fn"),
                ident("our_default"),
                Token::Group(DelimiterKind::Parenthesis, vec![]),
                Token::Punct('-', true),
                Token::Punct('>', false),
                ident("Self"),
                Token::Group(
                    DelimiterKind::Brace,
                    vec![ident("Foo"), Token::Group(DelimiterKind::Brace, vec![])],
                ),
            ],
        )
    );
    assert_eq!(out.len(), 10);
}

#[test]
fn derive_accepts_declaration_and_field_visibility() {
    // `pub struct Foo { pub bar: usize, baz: String }`
    let tokens = vec![
        ident("pub"),
        ident("struct"),
        ident("Foo"),
        Token::Group(
            DelimiterKind::Brace,
            vec![
                ident("pub"),
                ident("bar"),
                punct(':'),
                ident("usize"),
                punct(','),
                ident("baz"),
                punct(':'),
                ident("String"),
            ],
        ),
    ];
    assert!(default_derive(tokens).is_ok());
}

/// The identifiers of a token tree, in depth-first order.
fn idents_in_order(tokens: &[Token], out: &mut Vec<String>) {
    for t in tokens {
        match t {
            Token::Ident(s) => out.push(s.clone()),
            Token::Group(_, body) => idents_in_order(body, out),
            _ => {}
        }
    }
}

fn ident_position(tokens: &[Token], name: &str) -> usize {
    let mut names = Vec::new();
    idents_in_order(tokens, &mut names);
    names.iter().position(|n| n == name).unwrap()
}

#[test]
fn derive_keeps_field_order_for_both_permutations() {
    let out_ab = default_derive(struct_two_fields("alpha", "beta")).unwrap();
    let out_ba = default_derive(struct_two_fields("beta", "alpha")).unwrap();
    assert!(ident_position(&out_ab, "alpha") < ident_position(&out_ab, "beta"));
    assert!(ident_position(&out_ba, "beta") < ident_position(&out_ba, "alpha"));
}

#[test]
fn derive_rejects_enum_naming_the_keyword() {
    let tokens = vec![
        ident("enum"),
        ident("Foo"),
        Token::Group(
            DelimiterKind::Brace,
            vec![ident("A"), punct(','), ident("B")],
        ),
    ];
    assert_eq!(
        default_derive(tokens),
        Err(Error::UnsupportedDataType("enum".to_string()))
    );
}

#[test]
fn derive_rejects_tuple_struct_naming_the_delimiter() {
    let tokens = vec![
        ident("struct"),
        ident("Foo"),
        Token::Group(
            DelimiterKind::Parenthesis,
            vec![ident("String"), punct(','), ident("usize")],
        ),
        punct(';'),
    ];
    assert_eq!(
        default_derive(tokens),
        Err(Error::UnsupportedDelimiter(DelimiterKind::Parenthesis))
    );
}

#[test]
fn derive_rejects_missing_colon_with_malformed_input_diagnostic() {
    // `struct Foo { bar String }`
    let tokens = vec![
        ident("struct"),
        ident("Foo"),
        Token::Group(DelimiterKind::Brace, vec![ident("bar"), ident("String")]),
    ];
    assert_eq!(
        default_derive(tokens),
        Err(Error::ExpectedColon(Some(ident("String"))))
    );
}

#[test]
fn derive_rejects_qualified_visibility() {
    // `pub(crate) struct Foo {}`
    let tokens = vec![
        ident("pub"),
        Token::Group(DelimiterKind::Parenthesis, vec![ident("crate")]),
        ident("struct"),
        ident("Foo"),
        Token::Group(DelimiterKind::Brace, vec![]),
    ];
    assert_eq!(default_derive(tokens), Err(Error::UnsupportedVisibility));
}

#[test]
fn derive_rejects_empty_input() {
    assert_eq!(
        default_derive(vec![]),
        Err(Error::UnexpectedToken(None))
    );
}
