use vstd::prelude::*;

verus! {

/// Which bracket pair encloses a group of tokens.
#[derive(Clone, Copy, Debug, PartialEq, Eq, Structural)]
pub enum DelimiterKind {
    /// `{ ... }`
    Brace,
    /// `( ... )`
    Parenthesis,
    /// `[ ... ]`
    Bracket,
    /// An implicit delimiter, as a macro expansion may introduce.
    Invisible,
}

/// One node of a token tree: the smallest lexical unit of the declaration
/// grammar. A `Group` owns the sequence of tokens between its delimiters,
/// so a token is a finite tree.
#[derive(Debug, PartialEq, Eq)]
pub enum Token {
    /// A word such as a keyword or a name.
    Ident(String),
    /// A single punctuation character, and whether it is attached to the
    /// token that follows it (as in the first `:` of `::`).
    Punct(char, bool),
    /// A delimited sequence of further tokens.
    Group(DelimiterKind, Vec<Token>),
    /// A literal such as a number or a quoted string. The declaration
    /// grammar accepts no literal, but the token model must carry them.
    Literal(String),
}

/// The text of an identifier token.
pub open spec fn ident_name(t: Token) -> String {
    match t {
        Token::Ident(name) => name,
        _ => arbitrary(),
    }
}

/// Whether `t` is a punctuation token for the character `c`.
pub open spec fn is_punct_char(t: Token, c: char) -> bool {
    match t {
        Token::Punct(p, _) => p == c,
        _ => false,
    }
}

/// The delimiter kind of a group token.
pub open spec fn group_delimiter(t: Token) -> DelimiterKind {
    match t {
        Token::Group(d, _) => d,
        _ => arbitrary(),
    }
}

/// The tokens between a group token's delimiters.
pub open spec fn group_body(t: Token) -> Seq<Token> {
    match t {
        Token::Group(_, body) => body@,
        _ => arbitrary(),
    }
}

} // verus!
