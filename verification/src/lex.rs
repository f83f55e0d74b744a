use vstd::prelude::*;

use crate::token::{DelimiterKind, Token};

verus! {

/// What proc-macro2's lexer yields for a given source text, in this
/// library's token model: no value when the text is not lexically valid
/// Rust, and the text's token trees otherwise. The lexer's result depends
/// on the text alone, so the outcome is named rather than written out.
pub uninterp spec fn lex_of(text: Seq<char>) -> Option<Seq<Token>>;

#[verifier::external_type_specification]
#[verifier::external_body]
pub struct ExTokenTree(proc_macro2::TokenTree);

#[verifier::external_type_specification]
#[verifier::external_body]
pub struct ExDelimiter(proc_macro2::Delimiter);

/// Converts proc-macro2's delimiter kinds to this library's, one arm per
/// variant. Only `lex_source` reaches this; its contract carries the trust.
#[verifier::external_body]
fn delimiter_of(d: proc_macro2::Delimiter) -> DelimiterKind {
    match d {
        proc_macro2::Delimiter::Brace => DelimiterKind::Brace,
        proc_macro2::Delimiter::Parenthesis => DelimiterKind::Parenthesis,
        proc_macro2::Delimiter::Bracket => DelimiterKind::Bracket,
        proc_macro2::Delimiter::None => DelimiterKind::Invisible,
    }
}

/// Converts one proc-macro2 token tree to this library's token model, one
/// arm per variant, descending into groups. Only `lex_source` reaches
/// this; its contract carries the trust.
#[verifier::external_body]
fn token_of(t: proc_macro2::TokenTree) -> Token {
    match t {
        proc_macro2::TokenTree::Ident(i) => Token::Ident(i.to_string()),
        proc_macro2::TokenTree::Punct(p) => Token::Punct(
            p.as_char(),
            matches!(p.spacing(), proc_macro2::Spacing::Joint),
        ),
        proc_macro2::TokenTree::Literal(l) => Token::Literal(l.to_string()),
        proc_macro2::TokenTree::Group(g) => Token::Group(
            delimiter_of(g.delimiter()),
            g.stream().into_iter().map(token_of).collect(),
        ),
    }
}

/// Relies on proc-macro2: `str::parse::<TokenStream>` breaks source text
/// into token trees, returning a lex error if and only if the text is not
/// lexically valid Rust; with the crate's fallback lexer (its `proc-macro`
/// feature off) the result depends on the text alone.
#[verifier::external_body]
pub(crate) fn lex_source(text: &str) -> (r: Option<Vec<Token>>)
    ensures
        r matches Some(v) ==> lex_of(text@) matches Some(lexed) && v@ == lexed,
        r is None ==> lex_of(text@) is None,
{
    match text.parse::<proc_macro2::TokenStream>() {
        Ok(stream) => Some(stream.into_iter().map(token_of).collect()),
        Err(_) => None,
    }
}

} // verus!
