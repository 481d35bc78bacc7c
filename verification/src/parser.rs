//! The parser's cursor over a token sequence. The grammar is yet to come.

use vstd::prelude::*;
use crate::token::{Token, TokenView};

verus! {

/// An arithmetic operator of the syntax tree.
#[derive(Debug, Clone, Copy, PartialEq, Eq, Structural)]
pub enum Operator {
    Plus,
    Minus,
    Multiply,
    Divide,
    Modulus,
}

/// A cursor over the tokens of one source.
pub struct Parser {
    tokens: Vec<Token>,
    index: usize,
}

impl Parser {
    /// The tokens to parse.
    pub closed spec fn tokens(&self) -> Seq<TokenView> {
        self.tokens.deep_view()
    }

    /// The position of the next token to parse.
    pub closed spec fn cursor(&self) -> int {
        self.index as int
    }

    /// The cursor is inside the tokens or at their end.
    pub open spec fn wf(&self) -> bool {
        0 <= self.cursor() <= self.tokens().len()
    }

    /// A parser in front of the first of `tokens`.
    pub fn new(tokens: Vec<Token>) -> (parser: Self)
        ensures
            parser.wf(),
            parser.tokens() == tokens.deep_view(),
            parser.cursor() == 0,
    {
        Parser { tokens, index: 0 }
    }

    /// The token `forward` places after the cursor, if there is one.
    /// Nothing is consumed.
    pub fn peek(&self, forward: usize) -> (token: Option<&Token>)
        requires
            self.wf(),
        ensures
            match token {
                Some(t) => self.cursor() + forward < self.tokens().len() && t@ == self.tokens()[
                    self.cursor() + forward],
                None => self.cursor() + forward >= self.tokens().len(),
            },
    {
        if forward < self.tokens.len() - self.index {
            Some(&self.tokens[self.index + forward])
        } else {
            None
        }
    }

    /// Moves the cursor `amount` tokens on. If fewer are left, the cursor
    /// stays where it is.
    pub fn consume(&mut self, amount: usize)
        requires
            old(self).wf(),
        ensures
            final(self).wf(),
            final(self).tokens() == old(self).tokens(),
            final(self).cursor() == if old(self).cursor() + amount <= old(self).tokens().len() {
                old(self).cursor() + amount
            } else {
                old(self).cursor()
            },
    {
        if amount <= self.tokens.len() - self.index {
            self.index = self.index + amount;
        }
    }
}

} // verus!
