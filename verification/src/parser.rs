use vstd::prelude::*;
use vstd::string::StringExecFns;

use crate::cursor::Cursor;
use crate::token::{group_body, group_delimiter, ident_name, is_punct_char, DelimiterKind, Token};

verus! {

/// A recognized visibility marker. Only the bare `pub` keyword is
/// representable; a qualified marker such as `pub(crate)` is rejected
/// during parsing.
#[derive(Clone, Copy, Debug, PartialEq, Eq, Structural)]
pub enum VisibilityModifier {
    Pub,
}

/// One named, typed field of a record: an optional visibility marker, the
/// field's name, and its type. A type is a single bare identifier; paths,
/// generics and references are not representable.
#[derive(Debug, PartialEq, Eq)]
pub struct Field {
    pub visibility: Option<VisibilityModifier>,
    pub name: String,
    pub typ: String,
}

/// A named-field record declaration: its name and its fields, in
/// declaration order.
#[derive(Debug, PartialEq, Eq)]
pub struct Struct {
    pub name: String,
    pub fields: Vec<Field>,
}

/// The kind of data-type declaration. `Enum` is representable but
/// unsupported: the parser detects it and rejects it with a diagnostic, so
/// no parse ever yields it.
#[derive(Debug, PartialEq, Eq)]
pub enum DataType {
    Enum,
    Struct(Struct),
}

/// A terminal failure of one parse-and-emit pass. Every variant aborts the
/// whole operation; there is no recovery and no partial output.
///
/// The `Expected*` variants are malformed-input failures and carry the token
/// actually found, or `None` when the input was exhausted. The
/// `Unsupported*` variants name a construct this grammar deliberately does
/// not cover. `InvalidGeneratedCode` is an internal failure of the emitter:
/// its output did not lex back into a token sequence.
#[derive(Debug, PartialEq, Eq)]
pub enum Error {
    /// A visibility marker with a qualifier, such as `pub(crate)`.
    UnsupportedVisibility,
    /// A declaration keyword other than `struct`, carrying the keyword found.
    UnsupportedDataType(String),
    /// The declaration began with something other than a keyword.
    UnexpectedToken(Option<Token>),
    /// No identifier followed the `struct` keyword.
    ExpectedStructName(Option<Token>),
    /// No delimited group followed the record's name.
    ExpectedStructBody(Option<Token>),
    /// The record's body was delimited by something other than braces,
    /// as in a tuple-style declaration.
    UnsupportedDelimiter(DelimiterKind),
    /// A field did not begin with an identifier.
    ExpectedFieldName(Option<Token>),
    /// No `:` followed a field's name.
    ExpectedColon(Option<Token>),
    /// No identifier followed the `:` after a field's name.
    ExpectedFieldType,
    /// The emitted text failed to lex back into a token sequence.
    InvalidGeneratedCode,
}

/// The token a reader standing before `s` would see without consuming it.
pub open spec fn spec_peek(s: Seq<Token>) -> Option<Token> {
    if s.len() > 0 {
        Some(s[0])
    } else {
        None
    }
}

/// What reading one identifier from the front of `s` yields: the
/// identifier's text and the remaining tokens, or `None`, leaving `s` as it
/// was, when the first token is not an identifier.
pub open spec fn spec_next_ident(s: Seq<Token>) -> Option<(String, Seq<Token>)> {
    if s.len() > 0 && s[0] is Ident {
        Some((ident_name(s[0]), s.drop_first()))
    } else {
        None
    }
}

/// What reading one delimited group from the front of `s` yields: the
/// group's delimiter kind, its interior tokens, and the remaining tokens;
/// or `None`, leaving `s` as it was, when the first token is not a group.
pub open spec fn spec_next_group(s: Seq<Token>) -> Option<(DelimiterKind, Seq<Token>, Seq<Token>)> {
    if s.len() > 0 && s[0] is Group {
        Some((group_delimiter(s[0]), group_body(s[0]), s.drop_first()))
    } else {
        None
    }
}

/// What reading one punctuation token for the character `c` from the front
/// of `s` yields: the remaining tokens, or `None`, leaving `s` as it was,
/// when the first token is not that punctuation.
pub open spec fn spec_next_matching_punct(s: Seq<Token>, c: char) -> Option<Seq<Token>> {
    if s.len() > 0 && is_punct_char(s[0], c) {
        Some(s.drop_first())
    } else {
        None
    }
}

/// What reading an optional visibility marker from the front of `s` yields.
/// A bare `pub` is consumed; a `pub` followed by a delimited group is an
/// unsupported qualified marker and fails; anything else leaves `s` as it
/// was and yields no marker.
pub open spec fn spec_next_visibility_modifier(s: Seq<Token>) -> Result<
    (Option<VisibilityModifier>, Seq<Token>),
    Error,
> {
    if s.len() > 0 && s[0] is Ident && ident_name(s[0])@ == "pub"@ {
        if s.len() > 1 && s[1] is Group {
            Err(Error::UnsupportedVisibility)
        } else {
            Ok((Some(VisibilityModifier::Pub), s.drop_first()))
        }
    } else {
        Ok((None, s))
    }
}

/// What reading one field from the front of `s` yields: an optional
/// visibility marker, then the field's name, a `:`, the field's type, and
/// an optional trailing `,`; or the error that aborts the parse.
pub open spec fn spec_next_field(s: Seq<Token>) -> Result<(Field, Seq<Token>), Error> {
    match spec_next_visibility_modifier(s) {
        Err(e) => Err(e),
        Ok((visibility, s1)) => match spec_next_ident(s1) {
            None => Err(Error::ExpectedFieldName(spec_peek(s1))),
            Some((name, s2)) => match spec_next_matching_punct(s2, ':') {
                None => Err(Error::ExpectedColon(spec_peek(s2))),
                Some(s3) => match spec_next_ident(s3) {
                    None => Err(Error::ExpectedFieldType),
                    Some((typ, s4)) => {
                        let s5 = match spec_next_matching_punct(s4, ',') {
                            Some(rest) => rest,
                            None => s4,
                        };
                        Ok((Field { visibility, name, typ }, s5))
                    },
                },
            },
        },
    }
}

/// What reading fields until `s` is exhausted yields: the fields in the
/// order they stand in `s`, or the error of the first field that fails.
/// An empty `s` yields no fields.
pub open spec fn spec_next_fields(s: Seq<Token>) -> Result<Seq<Field>, Error>
    decreases s.len(),
{
    if s.len() == 0 {
        Ok(Seq::empty())
    } else {
        match spec_next_field(s) {
            Err(e) => Err(e),
            Ok((f, rest)) => match spec_next_fields(rest) {
                Err(e) => Err(e),
                Ok(fs) => Ok(seq![f] + fs),
            },
        }
    }
}

/// What reading a whole record declaration from the front of `s` yields:
/// the keyword `struct` (any other keyword is an unsupported construct),
/// the record's name, and a brace-delimited field list; or the error that
/// aborts the parse. Tokens after the record's body are left unread.
pub open spec fn spec_next_data_type(s: Seq<Token>) -> Result<
    (String, Seq<Field>, Seq<Token>),
    Error,
> {
    if !(s.len() > 0 && s[0] is Ident) {
        Err(Error::UnexpectedToken(spec_peek(s)))
    } else if ident_name(s[0])@ != "struct"@ {
        Err(Error::UnsupportedDataType(ident_name(s[0])))
    } else {
        let s1 = s.drop_first();
        match spec_next_ident(s1) {
            None => Err(Error::ExpectedStructName(spec_peek(s1))),
            Some((name, s2)) => match spec_next_group(s2) {
                None => Err(Error::ExpectedStructBody(spec_peek(s2))),
                Some((delimiter, body, s3)) => {
                    if delimiter != DelimiterKind::Brace {
                        Err(Error::UnsupportedDelimiter(delimiter))
                    } else {
                        match spec_next_fields(body) {
                            Err(e) => Err(e),
                            Ok(fields) => Ok((name, fields, s3)),
                        }
                    }
                },
            },
        }
    }
}

/// Whether the text of `s` equals the keyword `kw`.
fn is_keyword(s: &String, kw: &str) -> (r: bool)
    ensures
        r == (s@ == kw@),
{
    let k = String::from_str(kw);
    *s == k
}

/// Consumes and returns the text of the next token if it is an identifier;
/// otherwise leaves the cursor untouched and returns `None`.
pub fn next_ident(input: &mut Cursor) -> (r: Option<String>)
    ensures
        match spec_next_ident(old(input)@) {
            Some((name, rest)) => r == Some(name) && final(input)@ == rest,
            None => r is None && final(input)@ == old(input)@,
        },
{
    match input.peek() {
        Some(Token::Ident(_)) => match input.next() {
            Some(Token::Ident(name)) => Some(name),
            _ => None,
        },
        _ => None,
    }
}

/// Consumes and returns the next token's delimiter kind and interior if it
/// is a delimited group; otherwise leaves the cursor untouched and returns
/// `None`.
pub fn next_group(input: &mut Cursor) -> (r: Option<(DelimiterKind, Vec<Token>)>)
    ensures
        match spec_next_group(old(input)@) {
            Some((delimiter, body, rest)) => {
                &&& r matches Some((d, b)) && d == delimiter && b@ == body
                &&& final(input)@ == rest
            },
            None => r is None && final(input)@ == old(input)@,
        },
{
    match input.peek() {
        Some(Token::Group(_, _)) => match input.next() {
            Some(Token::Group(delimiter, body)) => Some((delimiter, body)),
            _ => None,
        },
        _ => None,
    }
}

/// Whether the cursor has reached the end of its input.
pub fn next_eof(input: &Cursor) -> (r: bool)
    ensures
        r == (input@.len() == 0),
{
    input.at_end()
}

/// Consumes and returns the next token if it is a punctuation token for
/// `matching`; otherwise, a non-matching token of any shape is left
/// unconsumed, and `None` is returned.
pub fn next_matching_punct(input: &mut Cursor, matching: char) -> (r: Option<Token>)
    ensures
        match spec_next_matching_punct(old(input)@, matching) {
            Some(rest) => r == Some(old(input)@[0]) && final(input)@ == rest,
            None => r is None && final(input)@ == old(input)@,
        },
{
    match input.peek() {
        Some(Token::Punct(c, _)) => {
            if *c == matching {
                input.next()
            } else {
                None
            }
        },
        _ => None,
    }
}

/// Reads an optional visibility marker such as `pub`. A `pub` followed by a
/// delimited group, as in `pub(crate)`, is an unsupported construct and
/// aborts the parse.
pub fn next_visibility_modifier(input: &mut Cursor) -> (r: Result<
    Option<VisibilityModifier>,
    Error,
>)
    ensures
        match spec_next_visibility_modifier(old(input)@) {
            Ok((v, rest)) => r == Ok::<Option<VisibilityModifier>, Error>(v) && final(input)@
                == rest,
            Err(e) => r == Err::<Option<VisibilityModifier>, Error>(e),
        },
{
    let is_pub = match input.peek() {
        Some(Token::Ident(name)) => is_keyword(name, "pub"),
        _ => false,
    };
    if !is_pub {
        return Ok(None);
    }
    // Consume the `pub` keyword.
    let _ = input.next();
    match input.peek() {
        Some(Token::Group(_, _)) => Err(Error::UnsupportedVisibility),
        _ => Ok(Some(VisibilityModifier::Pub)),
    }
}

/// Reads one field: an optional visibility marker, the field's name, a `:`,
/// the field's type, and an optional trailing `,`. A missing name, colon or
/// type aborts the parse.
pub fn next_field(input: &mut Cursor) -> (r: Result<Field, Error>)
    ensures
        match spec_next_field(old(input)@) {
            Ok((f, rest)) => r matches Ok(f2) && f2 == f && final(input)@ == rest,
            Err(e) => r matches Err(e2) && e2 == e,
        },
{
    let visibility = match next_visibility_modifier(input) {
        Ok(v) => v,
        Err(e) => {
            return Err(e);
        },
    };
    let name = match next_ident(input) {
        Some(n) => n,
        None => {
            return Err(Error::ExpectedFieldName(input.next()));
        },
    };
    match next_matching_punct(input, ':') {
        Some(_) => {},
        None => {
            return Err(Error::ExpectedColon(input.next()));
        },
    }
    let typ = match next_ident(input) {
        Some(t) => t,
        None => {
            return Err(Error::ExpectedFieldType);
        },
    };
    // A trailing comma is consumed when present; its absence only matters
    // for the final field of a list and is not an error.
    let _ = next_matching_punct(input, ',');
    Ok(Field { visibility, name, typ })
}

/// Reads fields until the cursor's input is exhausted and returns them in
/// input order. An empty input yields an empty field list.
#[verifier::loop_isolation(false)]
pub fn next_fields(input: &mut Cursor) -> (r: Result<Vec<Field>, Error>)
    ensures
        match spec_next_fields(old(input)@) {
            Ok(fs) => r matches Ok(v) && v@ == fs && final(input)@.len() == 0,
            Err(e) => r matches Err(e2) && e2 == e,
        },
{
    let mut fields: Vec<Field> = Vec::new();
    while !next_eof(input)
        invariant
            match spec_next_fields(input@) {
                Ok(fs) => spec_next_fields(old(input)@) == Ok::<Seq<Field>, Error>(fields@ + fs),
                Err(e) => spec_next_fields(old(input)@) == Err::<Seq<Field>, Error>(e),
            },
        decreases input@.len(),
    {
        let f = match next_field(input) {
            Ok(f) => f,
            Err(e) => {
                return Err(e);
            },
        };
        let ghost prev_fields = fields@;
        fields.push(f);
        proof {
            match spec_next_fields(input@) {
                Ok(fs) => {
                    assert(fields@ + fs =~= prev_fields + (seq![f] + fs));
                },
                Err(_) => {},
            }
        }
    }
    proof {
        assert(fields@ + Seq::<Field>::empty() =~= fields@);
    }
    Ok(fields)
}

/// Reads a whole record declaration: the keyword `struct` (any other
/// keyword, such as `enum`, is an unsupported construct), the record's
/// name, and its brace-delimited field list. A tuple-style body, delimited
/// by parentheses or brackets, is an unsupported construct. Tokens after
/// the body are left unread. A successful parse always yields the
/// `Struct` variant.
pub fn next_data_type(input: &mut Cursor) -> (r: Result<DataType, Error>)
    ensures
        match spec_next_data_type(old(input)@) {
            Ok((name, fields, rest)) => {
                &&& r matches Ok(DataType::Struct(st)) && st.name == name && st.fields@ == fields
                &&& final(input)@ == rest
            },
            Err(e) => r matches Err(e2) && e2 == e,
        },
{
    let keyword = match next_ident(input) {
        Some(k) => k,
        None => {
            return Err(Error::UnexpectedToken(input.next()));
        },
    };
    if !is_keyword(&keyword, "struct") {
        return Err(Error::UnsupportedDataType(keyword));
    }
    let name = match next_ident(input) {
        Some(n) => n,
        None => {
            return Err(Error::ExpectedStructName(input.next()));
        },
    };
    let (delimiter, body) = match next_group(input) {
        Some(g) => g,
        None => {
            return Err(Error::ExpectedStructBody(input.next()));
        },
    };
    // Examine the group delimiter: only braces (a named-field record) are
    // supported.
    if delimiter != DelimiterKind::Brace {
        return Err(Error::UnsupportedDelimiter(delimiter));
    }
    let mut group_cursor = Cursor::new(body);
    let fields = match next_fields(&mut group_cursor) {
        Ok(fs) => fs,
        Err(e) => {
            return Err(e);
        },
    };
    Ok(DataType::Struct(Struct { name, fields }))
}

} // verus!
