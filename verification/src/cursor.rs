use vstd::prelude::*;

use crate::token::Token;

verus! {

/// A forward-only view over a sequence of tokens with one-token lookahead:
/// `peek` never advances, `next` advances by exactly one token, and once the
/// sequence is exhausted both yield `None` permanently.
///
/// The view of a cursor is the sequence of tokens it has not yet consumed.
pub struct Cursor {
    tokens: Vec<Token>,
}

impl View for Cursor {
    type V = Seq<Token>;

    closed spec fn view(&self) -> Seq<Token> {
        self.tokens@
    }
}

impl Cursor {
    /// A cursor standing before the first of the given tokens.
    pub fn new(tokens: Vec<Token>) -> (c: Cursor)
        ensures
            c@ == tokens@,
    {
        Cursor { tokens }
    }

    /// The next token, without consuming it.
    pub fn peek(&self) -> (r: Option<&Token>)
        ensures
            match r {
                Some(t) => self@.len() > 0 && *t == self@[0],
                None => self@.len() == 0,
            },
    {
        if self.tokens.len() == 0 {
            None
        } else {
            Some(&self.tokens[0])
        }
    }

    /// Consumes and returns the next token.
    pub fn next(&mut self) -> (r: Option<Token>)
        ensures
            old(self)@.len() == 0 ==> r is None && final(self)@ == old(self)@,
            old(self)@.len() > 0 ==> r == Some(old(self)@[0]) && final(self)@ == old(self)@.drop_first(),
    {
        if self.tokens.len() == 0 {
            None
        } else {
            let t = self.tokens.remove(0);
            proof {
                assert(self@ =~= old(self)@.drop_first());
            }
            Some(t)
        }
    }

    /// Whether no token remains.
    pub fn at_end(&self) -> (r: bool)
        ensures
            r == (self@.len() == 0),
    {
        self.tokens.len() == 0
    }
}

} // verus!
