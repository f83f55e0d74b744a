//! A miniature compiler front end for one narrow declaration grammar: a
//! recursive-descent reader over a tree-shaped token sequence that recognizes
//! a named-field `struct` declaration, rejects every other construct with a
//! precise diagnostic, and emits the text of a function that builds a
//! default-initialized instance of the record.

use vstd::prelude::*;

pub mod cursor;
pub mod emit;
pub mod lex;
pub mod parser;
pub mod token;

use crate::cursor::Cursor;
use crate::emit::{emit_default_impl, emitted_text};
use crate::lex::{lex_of, lex_source};
use crate::parser::{
    next_data_type, next_visibility_modifier, spec_next_data_type, spec_next_visibility_modifier,
    DataType, Error, Field,
};
use crate::token::Token;
use vstd::pervasive::unreached;

verus! {

/// The record model that one parse pass over `s` yields: the record's name
/// and its fields in declaration order, or the error that aborts the
/// parse. A leading visibility marker on the declaration is optional and
/// discarded; tokens after the record's body are left unread.
pub open spec fn spec_derive_model(s: Seq<Token>) -> Result<(String, Seq<Field>), Error> {
    match spec_next_visibility_modifier(s) {
        Err(e) => Err(e),
        Ok((_visibility, s1)) => match spec_next_data_type(s1) {
            Err(e) => Err(e),
            Ok((name, fields, _rest)) => Ok((name, fields)),
        },
    }
}

/// For every token sequence that parses as a named-field record with some
/// number of fields, the emitted text is built around exactly one
/// initializer clause per parsed field; clause `i` begins with field `i`'s
/// declared name, so the initializer list keeps the declaration's field
/// order, whatever that order is; and a record with no fields is emitted
/// with an empty initializer list.
pub proof fn lemma_derive_one_initializer_per_field(
    tokens: Seq<Token>,
    name: String,
    fields: Seq<Field>,
)
    requires
        spec_derive_model(tokens) == Ok::<(String, Seq<Field>), Error>((name, fields)),
    ensures
        emitted_text(name@, fields) == "#[automatically_derived] impl crate::OurDefault for "@
            + name@ + " { fn our_default() -> Self { "@ + name@ + " { "@
            + crate::emit::initializer_list(fields) + " } } }"@,
        crate::emit::initializer_clauses(fields).len() == fields.len(),
        forall|i: int|
            0 <= i < fields.len() ==> #[trigger] crate::emit::initializer_clauses(fields)[i]
                == crate::emit::initializer_clause(fields[i]),
        forall|i: int|
            0 <= i < fields.len() ==> (#[trigger] crate::emit::initializer_clauses(fields)[i]).take(
                fields[i].name@.len() as int,
            ) == fields[i].name@,
        fields.len() == 0 ==> crate::emit::initializer_list(fields) == Seq::<char>::empty(),
{
    crate::emit::lemma_one_initializer_per_field(fields);
}

/// The whole pipeline over one declaration's tokens: parse the declaration
/// as a named-field record, emit the text of a function that constructs a
/// default-initialized instance of it, and lex that text back into a token
/// sequence. A failed parse yields that parse's error; emitted text that
/// does not lex back is an internal emitter failure, distinct from every
/// rejection of the input.
pub fn default_derive(input: Vec<Token>) -> (r: Result<Vec<Token>, Error>)
    ensures
        match spec_derive_model(input@) {
            Err(e) => r matches Err(e2) && e2 == e,
            Ok((name, fields)) => match lex_of(emitted_text(name@, fields)) {
                Some(lexed) => r matches Ok(v) && v@ == lexed,
                None => r matches Err(e2) && e2 == Error::InvalidGeneratedCode,
            },
        },
{
    let mut source = Cursor::new(input);
    // The declaration may begin with a visibility marker such as `pub`;
    // it is read and discarded.
    let _visibility = match next_visibility_modifier(&mut source) {
        Ok(v) => v,
        Err(e) => {
            return Err(e);
        },
    };
    let parsed_data_type = match next_data_type(&mut source) {
        Ok(d) => d,
        Err(e) => {
            return Err(e);
        },
    };
    let result_text = match parsed_data_type {
        DataType::Struct(s) => emit_default_impl(&s),
        // next_data_type never yields the unsupported `Enum` kind; it
        // rejects the keyword instead (see its contract).
        DataType::Enum => unreached(),
    };
    match lex_source(result_text.as_str()) {
        Some(tokens) => Ok(tokens),
        None => Err(Error::InvalidGeneratedCode),
    }
}

} // verus!
